//! Verified text helpers shared by both credential strategies: prefix
//! stripping for command-line flags and positional splitting for the lock
//! file.

use vstd::prelude::*;

verus! {

/// The suffix of `s` after `p`, if `p` is a prefix of `s`.
pub open spec fn strip_prefix_spec(s: Seq<char>, p: Seq<char>) -> Option<Seq<char>> {
    if p.len() <= s.len() && s.take(p.len() as int) == p {
        Some(s.skip(p.len() as int))
    } else {
        None
    }
}

/// The fields of `s` between occurrences of `sep`, in order.
///
/// An empty string has one empty field; each occurrence of `sep` starts a
/// new field, so `n` separators yield `n + 1` fields.
pub open spec fn split_spec(s: Seq<char>, sep: char) -> Seq<Seq<char>>
    decreases s.len(),
{
    if s.len() == 0 {
        seq![Seq::<char>::empty()]
    } else {
        let init = split_spec(s.drop_last(), sep);
        if s.last() == sep {
            init.push(Seq::<char>::empty())
        } else {
            init.update(init.len() - 1, init.last().push(s.last()))
        }
    }
}

/// If `prefix` is a prefix of `s`, the characters of `s` past it; `None`
/// otherwise.
pub fn strip_prefix_string(s: &str, prefix: &str) -> (r: Option<String>)
    ensures
        r.deep_view() == strip_prefix_spec(s@, prefix@),
{
    let n = prefix.unicode_len();
    let m = s.unicode_len();
    if n > m {
        return None;
    }
    let mut i: usize = 0;
    while i < n
        invariant
            i <= n <= m,
            n == prefix@.len(),
            m == s@.len(),
            forall|j: int| 0 <= j < i ==> s@[j] == prefix@[j],
        decreases n - i,
    {
        if s.get_char(i) != prefix.get_char(i) {
            assert(strip_prefix_spec(s@, prefix@) is None) by {
                assert(s@.take(n as int)[i as int] != prefix@[i as int]);
            }
            return None;
        }
        i += 1;
    }
    proof {
        assert(s@.take(n as int) =~= prefix@);
    }
    let suffix = s.substring_char(n, m);
    proof {
        assert(suffix@ =~= s@.skip(n as int));
    }
    Some(String::from_str(suffix))
}

/// The fields of `s` between occurrences of `sep`, in order.
pub fn split_string(s: &str, sep: char) -> (r: Vec<String>)
    ensures
        r.deep_view() == split_spec(s@, sep),
        r.len() >= 1,
{
    let m = s.unicode_len();
    let mut done: Vec<String> = Vec::new();
    let mut start: usize = 0;
    let mut i: usize = 0;
    proof {
        assert(s@.take(0) =~= Seq::<char>::empty());
        assert(split_spec(s@.take(0), sep) =~~= done.deep_view().push(s@.subrange(0, 0)));
    }
    while i < m
        invariant
            start <= i <= m,
            m == s@.len(),
            split_spec(s@.take(i as int), sep) == done.deep_view().push(
                s@.subrange(start as int, i as int),
            ),
        decreases m - i,
    {
        proof {
            assert(s@.take(i + 1).drop_last() =~= s@.take(i as int));
            assert(s@.take(i + 1).last() == s@[i as int]);
        }
        if s.get_char(i) == sep {
            done.push(String::from_str(s.substring_char(start, i)));
            start = i + 1;
            proof {
                assert(split_spec(s@.take(i + 1), sep) =~~= done.deep_view().push(
                    s@.subrange(start as int, i + 1),
                ));
            }
        } else {
            proof {
                let init = done.deep_view().push(s@.subrange(start as int, i as int));
                assert(init.last() == s@.subrange(start as int, i as int));
                assert(init.last().push(s@[i as int]) =~= s@.subrange(start as int, i + 1));
                assert(init.update(init.len() - 1, s@.subrange(start as int, i + 1))
                    =~~= done.deep_view().push(s@.subrange(start as int, i + 1)));
            }
        }
        i += 1;
    }
    proof {
        assert(s@.take(m as int) =~= s@);
        assert(s@.subrange(start as int, m as int) == s@.skip(start as int));
    }
    done.push(String::from_str(s.substring_char(start, m)));
    proof {
        assert(done.deep_view() =~~= split_spec(s@, sep));
    }
    done
}

} // verus!
