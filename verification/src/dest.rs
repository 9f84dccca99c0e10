//! Destination paths: a single path string split into an enclosing
//! directory and an optional file-name component.
use vstd::prelude::*;
use vstd::string::*;

verus! {

/// A structured destination: the enclosing directory (possibly empty) and
/// an optional file-name component.  Derived deterministically from one
/// path string by [`Dest::from_path`].
#[derive(Debug, Clone)]
pub struct Dest {
    pub directory: String,
    pub file_name: Option<String>,
}

/// The mathematical value of a [`Dest`].
#[verifier::ext_equal]
pub ghost struct DestV {
    pub directory: Seq<char>,
    pub file_name: Option<Seq<char>>,
}

impl DeepView for Dest {
    type V = DestV;

    open spec fn deep_view(&self) -> DestV {
        DestV {
            directory: self.directory@,
            file_name: match self.file_name {
                Some(f) => Some(f@),
                None => None,
            },
        }
    }
}

/// Where the file-name component of `s` begins: just after the last `/`,
/// or `s.len()` when `s` is empty or ends in `/` (no file-name component).
pub open spec fn split_point(s: Seq<char>) -> int
    decreases s.len(),
{
    if s.len() == 0 {
        0
    } else if s.last() == '/' {
        s.len() as int
    } else {
        split_point(s.drop_last())
    }
}

/// The destination derived from the path string `s`: a trailing separator
/// (or the absence of any non-directory segment) yields no file name;
/// otherwise the final segment is the file name and the rest the directory.
pub open spec fn parse_dest(s: Seq<char>) -> DestV {
    let k = split_point(s);
    if k == s.len() {
        DestV { directory: s, file_name: None }
    } else {
        DestV { directory: s.take(k), file_name: Some(s.skip(k)) }
    }
}

proof fn lemma_split_point_bounds(s: Seq<char>)
    ensures
        0 <= split_point(s) <= s.len(),
    decreases s.len(),
{
    if s.len() != 0 && s.last() != '/' {
        lemma_split_point_bounds(s.drop_last());
    }
}

/// Characters at or after `k` that are not separators do not move the
/// split point.
proof fn lemma_split_point_ignores_tail(s: Seq<char>, k: int)
    requires
        0 <= k <= s.len(),
        forall|j: int| k <= j < s.len() ==> s[j] != '/',
    ensures
        split_point(s) == split_point(s.take(k)),
    decreases s.len(),
{
    if k == s.len() {
        assert(s.take(k) =~= s);
    } else {
        assert(s.last() != '/');
        lemma_split_point_ignores_tail(s.drop_last(), k);
        assert(s.drop_last().take(k) =~= s.take(k));
    }
}

impl Dest {
    /// Derive a destination from one path string, by the rule of
    /// [`parse_dest`].
    pub fn from_path(s: &str) -> (d: Dest)
        ensures
            d.deep_view() == parse_dest(s@),
    {
        let n = s.unicode_len();
        let mut k = n;
        while k > 0 && s.get_char(k - 1) != '/'
            invariant
                k <= n,
                n == s@.len(),
                forall|j: int| k <= j < n ==> s@[j] != '/',
            decreases k,
        {
            k = k - 1;
        }
        proof {
            lemma_split_point_ignores_tail(s@, k as int);
            if k == 0 {
                assert(s@.take(0) =~= Seq::<char>::empty());
                assert(split_point(s@) == 0);
            } else {
                assert(s@.take(k as int).last() == '/');
                assert(split_point(s@) == k);
            }
        }
        if k == n {
            let d = Dest { directory: s.to_owned(), file_name: None };
            proof {
                assert(d.deep_view() =~= parse_dest(s@));
            }
            d
        } else {
            let dir = s.substring_char(0, k).to_owned();
            let name = s.substring_char(k, n).to_owned();
            let d = Dest { directory: dir, file_name: Some(name) };
            proof {
                assert(d.deep_view() =~= parse_dest(s@));
            }
            d
        }
    }
}

/// Destination parsing is a function of the path string alone; a path with
/// at least one segment and no trailing separator always yields a non-empty
/// file name; a path that is empty or ends in a separator yields none; and
/// directory and file name together always re-compose the path.
pub proof fn lemma_parse_dest_shape(s: Seq<char>)
    ensures
        s.len() > 0 && s.last() != '/' ==> (parse_dest(s).file_name matches Some(f)
            && f.len() > 0),
        s.len() == 0 || s.last() == '/' ==> parse_dest(s).file_name is None,
        parse_dest(s).directory + (match parse_dest(s).file_name {
            Some(f) => f,
            None => Seq::<char>::empty(),
        }) == s,
{
    lemma_split_point_bounds(s);
    if s.len() > 0 && s.last() != '/' {
        lemma_split_point_bounds(s.drop_last());
    }
    let k = split_point(s);
    if k == s.len() {
        assert(s + Seq::<char>::empty() =~= s);
    } else {
        assert(s.take(k) + s.skip(k) =~= s);
    }
}

} // verus!
