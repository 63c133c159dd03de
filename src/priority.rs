//! How pressing an issue is.
use vstd::prelude::*;
use vstd::string::*;
use crate::text::{lower_of, str_eq, to_lower};

verus! {

/// Issue priority, ordered as declared; `Unset` (no priority) is the default.
#[derive(Debug, Clone, Copy, PartialEq, Eq, Structural, Hash)]
pub enum Priority {
    Unset,
    Urgent,
    High,
    Medium,
    Low,
}

/// The number of a priority, 0 for `Unset` up to 4 for `Low`.
pub open spec fn priority_rank(p: Priority) -> u8 {
    match p {
        Priority::Unset => 0,
        Priority::Urgent => 1,
        Priority::High => 2,
        Priority::Medium => 3,
        Priority::Low => 4,
    }
}

/// The lower-case name of a priority.
pub open spec fn priority_text(p: Priority) -> Seq<char> {
    match p {
        Priority::Unset => "none"@,
        Priority::Urgent => "urgent"@,
        Priority::High => "high"@,
        Priority::Medium => "medium"@,
        Priority::Low => "low"@,
    }
}

/// The priority that a lower-case word or digit names.
pub open spec fn priority_token(t: Seq<char>) -> Option<Priority> {
    if t == "none"@ || t == "0"@ {
        Some(Priority::Unset)
    } else if t == "urgent"@ || t == "1"@ {
        Some(Priority::Urgent)
    } else if t == "high"@ || t == "2"@ {
        Some(Priority::High)
    } else if t == "medium"@ || t == "3"@ {
        Some(Priority::Medium)
    } else if t == "low"@ || t == "4"@ {
        Some(Priority::Low)
    } else {
        None
    }
}

impl Default for Priority {
    fn default() -> (r: Priority)
        ensures
            r == Priority::Unset,
    {
        Priority::Unset
    }
}

impl Priority {
    /// The numeric value of the priority.
    pub fn as_u8(self) -> (r: u8)
        ensures
            r == priority_rank(self),
    {
        match self {
            Priority::Unset => 0,
            Priority::Urgent => 1,
            Priority::High => 2,
            Priority::Medium => 3,
            Priority::Low => 4,
        }
    }

    /// The priority with the given number, if there is one.
    pub fn from_u8(value: u8) -> (r: Option<Priority>)
        ensures
            value <= 4 ==> r is Some && priority_rank(r->Some_0) == value,
            value > 4 ==> r is None,
    {
        match value {
            0 => Some(Priority::Unset),
            1 => Some(Priority::Urgent),
            2 => Some(Priority::High),
            3 => Some(Priority::Medium),
            4 => Some(Priority::Low),
            _ => None,
        }
    }

    /// Every priority, in declaration order.
    pub fn all() -> (r: Vec<Priority>)
        ensures
            r@ == seq![
                Priority::Unset,
                Priority::Urgent,
                Priority::High,
                Priority::Medium,
                Priority::Low,
            ],
    {
        vec![Priority::Unset, Priority::Urgent, Priority::High, Priority::Medium, Priority::Low]
    }

    /// The lower-case name of the priority.
    pub fn to_string(&self) -> (r: String)
        ensures
            r@ == priority_text(*self),
    {
        match self {
            Priority::Unset => String::from_str("none"),
            Priority::Urgent => String::from_str("urgent"),
            Priority::High => String::from_str("high"),
            Priority::Medium => String::from_str("medium"),
            Priority::Low => String::from_str("low"),
        }
    }

    /// Reads an already lower-cased name or digit.
    pub fn from_lowercase(t: &str) -> (r: Option<Priority>)
        ensures
            r == priority_token(t@),
    {
        if str_eq(t, "none") || str_eq(t, "0") {
            Some(Priority::Unset)
        } else if str_eq(t, "urgent") || str_eq(t, "1") {
            Some(Priority::Urgent)
        } else if str_eq(t, "high") || str_eq(t, "2") {
            Some(Priority::High)
        } else if str_eq(t, "medium") || str_eq(t, "3") {
            Some(Priority::Medium)
        } else if str_eq(t, "low") || str_eq(t, "4") {
            Some(Priority::Low)
        } else {
            None
        }
    }

    /// Reads a priority name or digit 0 to 4, ignoring case.
    pub fn parse(s: &str) -> (r: Result<Priority, String>)
        ensures
            r is Ok <==> priority_token(lower_of(s@)) is Some,
            r is Ok ==> r->Ok_0 == priority_token(lower_of(s@))->Some_0,
    {
        let lower = to_lower(s);
        match Priority::from_lowercase(lower.as_str()) {
            Some(p) => Ok(p),
            None => Err(
                String::from_str("Invalid priority '").concat(s).concat(
                    "'. Valid options: none, urgent, high, medium, low (or 0-4)",
                ),
            ),
        }
    }
}

impl std::str::FromStr for Priority {
    type Err = String;

    fn from_str(s: &str) -> Result<Priority, String> {
        Priority::parse(s)
    }
}

} // verus!
