//! User identifiers of the form `@localpart:servername`.

use vstd::prelude::*;
use vstd::string::StrSliceExecFns;

verus! {

/// Whether position `i` is the separating colon of `s`: the first `':'`
/// after the leading `'@'`, with a non-empty localpart before it and a
/// non-empty server name after it.
pub open spec fn is_separator(s: Seq<char>, i: int) -> bool {
    &&& 2 <= i < s.len() - 1
    &&& s[i] == ':'
    &&& forall|j: int| 1 <= j < i ==> s[j] != ':'
}

/// Whether `s` is a well-formed user identifier: it starts with `'@'`, and
/// its first `':'` splits the remainder into a non-empty localpart and a
/// non-empty server name.
pub open spec fn valid_user_id(s: Seq<char>) -> bool {
    &&& s.len() > 0
    &&& s[0] == '@'
    &&& exists|i: int| is_separator(s, i)
}

/// A validated user identifier, kept as the raw string it was parsed from.
///
/// [`UserId::parse`] is the only way to obtain one, so every value satisfies
/// [`valid_user_id`].
#[derive(Debug)]
pub struct UserId {
    raw: String,
}

impl View for UserId {
    type V = Seq<char>;

    closed spec fn view(&self) -> Seq<char> {
        self.raw@
    }
}

impl Clone for UserId {
    fn clone(&self) -> (r: UserId)
        ensures
            r == *self,
    {
        UserId { raw: self.raw.clone() }
    }
}

impl PartialEq for UserId {
    fn eq(&self, other: &UserId) -> (r: bool) {
        self.raw == other.raw
    }
}

impl vstd::std_specs::cmp::PartialEqSpecImpl for UserId {
    open spec fn obeys_eq_spec() -> bool {
        true
    }

    open spec fn eq_spec(&self, other: &UserId) -> bool {
        self@ == other@
    }
}

impl UserId {
    /// Validates `s` and wraps it; rejects exactly the strings that are not
    /// well-formed user identifiers.
    pub fn parse(s: &str) -> (r: Option<UserId>)
        ensures
            r is Some <==> valid_user_id(s@),
            r matches Some(u) ==> u@ == s@,
    {
        let n = s.unicode_len();
        if n == 0 || s.get_char(0) != '@' {
            return None;
        }
        let mut i: usize = 1;
        while i < n
            invariant
                1 <= i <= n,
                n == s@.len(),
                s@[0] == '@',
                forall|j: int| 1 <= j < i ==> s@[j] != ':',
            decreases n - i,
        {
            if s.get_char(i) == ':' {
                if i >= 2 && i + 1 < n {
                    proof {
                        assert(is_separator(s@, i as int));
                    }
                    return Some(UserId { raw: s.to_owned() });
                } else {
                    // The first colon leaves the localpart or the server
                    // name empty, and no later colon is a first colon.
                    proof {
                        assert forall|k: int| !is_separator(s@, k) by {
                            if 1 <= k < i {
                                assert(s@[k] != ':');
                            } else if k > i && k < s@.len() {
                                assert(s@[i as int] == ':');
                            }
                        }
                    }
                    return None;
                }
            }
            i += 1;
        }
        proof {
            assert forall|k: int| !is_separator(s@, k) by {
                if 1 <= k < s@.len() {
                    assert(s@[k] != ':');
                }
            }
        }
        None
    }

    /// The raw identifier string.
    pub fn as_str(&self) -> (r: &str)
        ensures
            r@ == self@,
    {
        self.raw.as_str()
    }
}

} // verus!
