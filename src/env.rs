//! Looking up settings by key, and resolving the author of a change.
use vstd::prelude::*;
use vstd::string::*;
use crate::identity::Identity;
use crate::sync::opt_str_view;
use crate::text::str_eq;

verus! {

/// A source of settings by key, such as the process environment.
pub trait EnvProvider {
    /// The value of `key`, if it is set.
    fn get_var(&self, key: &str) -> Option<String>;
}

/// An in-memory source of settings, for tests. Keys are unique.
pub struct MockEnvProvider {
    vars: Vec<(String, String)>,
}

/// No key occurs twice.
pub open spec fn unique_keys(v: Seq<(String, String)>) -> bool {
    forall|i: int, j: int| 0 <= i < j < v.len() ==> v[i].0@ != v[j].0@
}

/// The settings that a list of key/value pairs holds.
pub open spec fn vars_map(v: Seq<(String, String)>) -> Map<Seq<char>, Seq<char>> {
    Map::new(
        |k: Seq<char>| exists|i: int| 0 <= i < v.len() && v[i].0@ == k,
        |k: Seq<char>| v[choose|i: int| 0 <= i < v.len() && v[i].0@ == k].1@,
    )
}

proof fn lemma_vars_at(v: Seq<(String, String)>, i: int)
    requires
        unique_keys(v),
        0 <= i < v.len(),
    ensures
        vars_map(v).contains_key(v[i].0@),
        vars_map(v)[v[i].0@] == v[i].1@,
{
    let k = v[i].0@;
    assert(exists|j: int| 0 <= j < v.len() && v[j].0@ == k);
    let j = choose|j: int| 0 <= j < v.len() && v[j].0@ == k;
    assert(i == j);
}

fn key_position(v: &Vec<(String, String)>, key: &str) -> (r: Option<usize>)
    ensures
        r is None ==> !vars_map(v@).contains_key(key@),
        r is Some ==> r->Some_0 < v@.len() && v@[r->Some_0 as int].0@ == key@,
{
    let mut i: usize = 0;
    while i < v.len()
        invariant
            i <= v@.len(),
            forall|k: int| 0 <= k < i ==> v@[k].0@ != key@,
        decreases v@.len() - i,
    {
        if str_eq(v[i].0.as_str(), key) {
            return Some(i);
        }
        i = i + 1;
    }
    None
}

fn vars_set(v: &mut Vec<(String, String)>, key: &str, value: &str)
    requires
        unique_keys(old(v)@),
    ensures
        unique_keys(final(v)@),
        vars_map(final(v)@) == vars_map(old(v)@).insert(key@, value@),
{
    let ghost before = v@;
    let ghost target = vars_map(before).insert(key@, value@);
    match key_position(v, key) {
        Some(i) => {
            v.set(i, (String::from_str(key), String::from_str(value)));
            assert forall|a: int, b: int| 0 <= a < b < v@.len() implies v@[a].0@ != v@[b].0@ by {
                assert(before[a].0@ != before[b].0@);
            }
            assert forall|k: Seq<char>| #[trigger] vars_map(v@).contains_key(k) <==> target.contains_key(k) by {
                if vars_map(before).contains_key(k) {
                    let j = choose|j: int| 0 <= j < before.len() && before[j].0@ == k;
                    assert(v@[j].0@ == k);
                }
                if vars_map(v@).contains_key(k) {
                    let j = choose|j: int| 0 <= j < v@.len() && v@[j].0@ == k;
                    if j != i {
                        assert(before[j].0@ == k);
                    }
                }
                if k == key@ {
                    assert(v@[i as int].0@ == k);
                }
            }
            assert forall|k: Seq<char>| #[trigger] vars_map(v@).contains_key(k) implies vars_map(v@)[k] == target[k] by {
                let j = choose|j: int| 0 <= j < v@.len() && v@[j].0@ == k;
                lemma_vars_at(v@, j);
                if j != i {
                    lemma_vars_at(before, j);
                }
            }
            assert(vars_map(v@) =~= target);
        },
        None => {
            v.push((String::from_str(key), String::from_str(value)));
            let ghost n = before.len() as int;
            assert forall|k: Seq<char>| #[trigger] vars_map(v@).contains_key(k) <==> target.contains_key(k) by {
                if vars_map(before).contains_key(k) {
                    let j = choose|j: int| 0 <= j < before.len() && before[j].0@ == k;
                    assert(v@[j].0@ == k);
                }
                if vars_map(v@).contains_key(k) {
                    let j = choose|j: int| 0 <= j < v@.len() && v@[j].0@ == k;
                    if j != n {
                        assert(before[j].0@ == k);
                    }
                }
                if k == key@ {
                    assert(v@[n].0@ == k);
                }
            }
            assert forall|k: Seq<char>| #[trigger] vars_map(v@).contains_key(k) implies vars_map(v@)[k] == target[k] by {
                let j = choose|j: int| 0 <= j < v@.len() && v@[j].0@ == k;
                lemma_vars_at(v@, j);
                if j != n {
                    lemma_vars_at(before, j);
                }
            }
            assert(vars_map(v@) =~= target);
        },
    }
}

fn vars_remove(v: &mut Vec<(String, String)>, key: &str)
    requires
        unique_keys(old(v)@),
    ensures
        unique_keys(final(v)@),
        vars_map(final(v)@) == vars_map(old(v)@).remove(key@),
{
    let ghost before = v@;
    let ghost target = vars_map(before).remove(key@);
    match key_position(v, key) {
        Some(i) => {
            v.remove(i);
            assert forall|a: int, b: int| 0 <= a < b < v@.len() implies v@[a].0@ != v@[b].0@ by {
                let a2 = if a < i { a } else { a + 1 };
                let b2 = if b < i { b } else { b + 1 };
                assert(before[a2].0@ != before[b2].0@);
            }
            assert forall|k: Seq<char>| #[trigger] vars_map(v@).contains_key(k) <==> target.contains_key(k) by {
                if vars_map(before).contains_key(k) && k != key@ {
                    let j = choose|j: int| 0 <= j < before.len() && before[j].0@ == k;
                    assert(j != i);
                    let j2 = if j < i { j } else { j - 1 };
                    assert(v@[j2].0@ == k);
                }
                if vars_map(v@).contains_key(k) {
                    let j = choose|j: int| 0 <= j < v@.len() && v@[j].0@ == k;
                    let j2 = if j < i { j } else { j + 1 };
                    assert(before[j2].0@ == k);
                    assert(j2 != i);
                }
            }
            assert forall|k: Seq<char>| #[trigger] vars_map(v@).contains_key(k) implies vars_map(v@)[k] == target[k] by {
                let j = choose|j: int| 0 <= j < v@.len() && v@[j].0@ == k;
                lemma_vars_at(v@, j);
                let j2 = if j < i { j } else { j + 1 };
                assert(before[j2] == v@[j]);
                lemma_vars_at(before, j2);
            }
            assert(vars_map(v@) =~= target);
        },
        None => {
            assert(vars_map(v@) =~= target);
        },
    }
}

impl View for MockEnvProvider {
    type V = Map<Seq<char>, Seq<char>>;

    closed spec fn view(&self) -> Map<Seq<char>, Seq<char>> {
        vars_map(self.vars@)
    }
}

impl MockEnvProvider {
    #[verifier::type_invariant]
    spec fn keys_unique(&self) -> bool {
        unique_keys(self.vars@)
    }

    /// An empty source.
    pub fn new() -> (r: MockEnvProvider)
        ensures
            r@ == Map::<Seq<char>, Seq<char>>::empty(),
    {
        let r = MockEnvProvider { vars: Vec::new() };
        assert(vars_map(r.vars@) =~= Map::<Seq<char>, Seq<char>>::empty());
        r
    }

    /// The value of `key`, if it is set.
    pub fn lookup(&self, key: &str) -> (r: Option<String>)
        ensures
            r is Some <==> self@.contains_key(key@),
            r is Some ==> r->Some_0@ == self@[key@],
    {
        proof {
            use_type_invariant(self);
        }
        match key_position(&self.vars, key) {
            Some(i) => {
                proof {
                    lemma_vars_at(self.vars@, i as int);
                }
                Some(self.vars[i].1.clone())
            },
            None => None,
        }
    }

    /// Sets `key` to `value`, replacing any earlier value.
    pub fn set_var(&mut self, key: &str, value: &str) -> (r: &mut Self)
        ensures
            (*r)@ == old(self)@.insert(key@, value@),
            *final(self) == *final(r),
    {
        proof {
            use_type_invariant(&*self);
        }
        let mut vars: Vec<(String, String)> = Vec::new();
        std::mem::swap(&mut vars, &mut self.vars);
        vars_set(&mut vars, key, value);
        self.vars = vars;
        self
    }

    /// Removes `key`, if it is set.
    pub fn remove_var(&mut self, key: &str) -> (r: &mut Self)
        ensures
            (*r)@ == old(self)@.remove(key@),
            *final(self) == *final(r),
    {
        proof {
            use_type_invariant(&*self);
        }
        let mut vars: Vec<(String, String)> = Vec::new();
        std::mem::swap(&mut vars, &mut self.vars);
        vars_remove(&mut vars, key);
        self.vars = vars;
        self
    }

    /// A source that sets `GIT_AUTHOR_NAME` and `GIT_AUTHOR_EMAIL`.
    pub fn with_git_author(name: &str, email: &str) -> (r: MockEnvProvider)
        ensures
            r@ == Map::<Seq<char>, Seq<char>>::empty().insert("GIT_AUTHOR_NAME"@, name@).insert(
                "GIT_AUTHOR_EMAIL"@,
                email@,
            ),
    {
        let mut mock = MockEnvProvider::new();
        mock.set_var("GIT_AUTHOR_NAME", name);
        mock.set_var("GIT_AUTHOR_EMAIL", email);
        mock
    }
}

impl EnvProvider for MockEnvProvider {
    fn get_var(&self, key: &str) -> Option<String> {
        self.lookup(key)
    }
}

/// The first value that is set, in order of preference.
pub open spec fn first_set(
    a: Option<Seq<char>>,
    b: Option<Seq<char>>,
    c: Option<Seq<char>>,
    fallback: Seq<char>,
) -> Seq<char> {
    if a is Some {
        a->Some_0
    } else if b is Some {
        b->Some_0
    } else if c is Some {
        c->Some_0
    } else {
        fallback
    }
}

/// The author of a change. The name is the explicit one, else `GIT_AUTHOR_NAME`,
/// else the repository's `user.name`, else `USER`, else `Unknown`. The e-mail is
/// the explicit one, else `GIT_AUTHOR_EMAIL`, else `user.email`, else
/// `unknown@localhost`.
pub fn resolve_author(
    name: Option<String>,
    email: Option<String>,
    env_name: Option<String>,
    config_name: Option<String>,
    env_user: Option<String>,
    env_email: Option<String>,
    config_email: Option<String>,
) -> (r: Identity)
    ensures
        r@.name == first_set(
            opt_str_view(name),
            opt_str_view(env_name),
            opt_str_view(config_name),
            first_set(opt_str_view(env_user), None, None, "Unknown"@),
        ),
        r@.email == first_set(
            opt_str_view(email),
            opt_str_view(env_email),
            opt_str_view(config_email),
            "unknown@localhost"@,
        ),
{
    let n = match name {
        Some(n) => n,
        None => match env_name {
            Some(n) => n,
            None => match config_name {
                Some(n) => n,
                None => match env_user {
                    Some(n) => n,
                    None => String::from_str("Unknown"),
                },
            },
        },
    };
    let e = match email {
        Some(e) => e,
        None => match env_email {
            Some(e) => e,
            None => match config_email {
                Some(e) => e,
                None => String::from_str("unknown@localhost"),
            },
        },
    };
    Identity { name: n, email: e }
}

/// The author of a change, looking up the environment keys through `env`; the
/// repository's `user.name` and `user.email` are passed in.
pub fn get_author_identity<E: EnvProvider>(
    name: Option<String>,
    email: Option<String>,
    config_name: Option<String>,
    config_email: Option<String>,
    env: &E,
) -> (r: Identity)
    ensures
        name is Some ==> r@.name == name->Some_0@,
        email is Some ==> r@.email == email->Some_0@,
{
    let env_name = env.get_var("GIT_AUTHOR_NAME");
    let env_user = env.get_var("USER");
    let env_email = env.get_var("GIT_AUTHOR_EMAIL");
    resolve_author(name, email, env_name, config_name, env_user, env_email, config_email)
}

} // verus!
