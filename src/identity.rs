//! Who wrote an event, and who an issue is assigned to.
use vstd::prelude::*;
use vstd::string::*;

verus! {

/// The value of an identity: its name and its e-mail address.
pub struct IdentityView {
    pub name: Seq<char>,
    pub email: Seq<char>,
}

/// A person, by name and e-mail address. Equality is field by field.
#[derive(Debug, Clone)]
pub struct Identity {
    pub name: String,
    pub email: String,
}

impl View for Identity {
    type V = IdentityView;

    open spec fn view(&self) -> IdentityView {
        IdentityView { name: self.name@, email: self.email@ }
    }
}

/// The views of a sequence of identities, in order.
pub open spec fn identities_view(s: Seq<Identity>) -> Seq<IdentityView> {
    s.map_values(|i: Identity| i@)
}

/// The view of an optional identity.
pub open spec fn opt_identity_view(o: Option<Identity>) -> Option<IdentityView> {
    match o {
        Some(i) => Some(i@),
        None => None,
    }
}

/// How an identity is shown: `name <email>`.
pub open spec fn identity_text(i: IdentityView) -> Seq<char> {
    i.name + " <"@ + i.email + ">"@
}

impl Identity {
    pub fn new(name: &str, email: &str) -> (r: Identity)
        ensures
            r@.name == name@,
            r@.email == email@,
    {
        Identity { name: String::from_str(name), email: String::from_str(email) }
    }

    /// A copy that keeps both fields.
    pub fn duplicate(&self) -> (r: Identity)
        ensures
            r@ == self@,
    {
        Identity { name: self.name.clone(), email: self.email.clone() }
    }

    /// Field-by-field equality.
    pub fn same_as(&self, other: &Identity) -> (r: bool)
        ensures
            r == (self@ == other@),
    {
        self.name == other.name && self.email == other.email
    }

    /// The identity as `name <email>`.
    pub fn to_string(&self) -> (r: String)
        ensures
            r@ == identity_text(self@),
    {
        let s = self.name.clone().concat(" <");
        let s = s.concat(self.email.as_str());
        s.concat(">")
    }
}

impl PartialEq for Identity {
    fn eq(&self, other: &Identity) -> (r: bool) {
        self.same_as(other)
    }
}

impl vstd::std_specs::cmp::PartialEqSpecImpl for Identity {
    open spec fn obeys_eq_spec() -> bool {
        true
    }

    open spec fn eq_spec(&self, other: &Identity) -> bool {
        self@ == other@
    }
}

impl Eq for Identity {}

/// A copy of an optional identity.
pub fn duplicate_opt(o: &Option<Identity>) -> (r: Option<Identity>)
    ensures
        opt_identity_view(r) == opt_identity_view(*o),
{
    match o {
        Some(i) => Some(i.duplicate()),
        None => None,
    }
}

/// Equality of two optional identities, by value.
pub fn same_opt(a: &Option<Identity>, b: &Option<Identity>) -> (r: bool)
    ensures
        r == (opt_identity_view(*a) == opt_identity_view(*b)),
{
    match (a, b) {
        (Some(x), Some(y)) => x.same_as(y),
        (None, None) => true,
        _ => false,
    }
}

/// A copy of a list of identities.
pub fn duplicate_all(v: &Vec<Identity>) -> (r: Vec<Identity>)
    ensures
        identities_view(r@) == identities_view(v@),
{
    let mut r: Vec<Identity> = Vec::new();
    let mut i: usize = 0;
    while i < v.len()
        invariant
            i <= v@.len(),
            r@.len() == i,
            forall|k: int| 0 <= k < i ==> r@[k]@ == v@[k]@,
        decreases v@.len() - i,
    {
        r.push(v[i].duplicate());
        i = i + 1;
    }
    assert(identities_view(r@) =~= identities_view(v@));
    r
}

/// Equality of two lists of identities, element by element and in order.
pub fn same_all(a: &Vec<Identity>, b: &Vec<Identity>) -> (r: bool)
    ensures
        r == (identities_view(a@) == identities_view(b@)),
{
    if a.len() != b.len() {
        assert(identities_view(a@).len() != identities_view(b@).len());
        return false;
    }
    let mut i: usize = 0;
    while i < a.len()
        invariant
            a@.len() == b@.len(),
            i <= a@.len(),
            forall|k: int| 0 <= k < i ==> a@[k]@ == b@[k]@,
        decreases a@.len() - i,
    {
        if !a[i].same_as(&b[i]) {
            assert(identities_view(a@)[i as int] != identities_view(b@)[i as int]);
            return false;
        }
        i = i + 1;
    }
    assert(identities_view(a@) =~= identities_view(b@));
    true
}

} // verus!
