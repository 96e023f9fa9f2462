//! Extraction of a human-readable OS name out of the content of an OS
//! release descriptor: the value of the first `PRETTY_NAME=` line,
//! falling back to the first `NAME=` line, then to `"Unknown"`; the
//! value is taken with its surrounding double quotes trimmed.

use vstd::prelude::*;

verus! {

/// The number of characters of `s` before its first newline, or all of
/// `s` when it has none.
pub open spec fn first_line_len(s: Seq<char>) -> nat
    decreases s.len(),
{
    if s.len() == 0 {
        0
    } else if s[0] == '\n' {
        0
    } else {
        1 + first_line_len(s.skip(1))
    }
}

/// `v` with every leading double quote removed.
pub open spec fn trim_leading_quotes(v: Seq<char>) -> Seq<char>
    decreases v.len(),
{
    if v.len() > 0 && v[0] == '"' {
        trim_leading_quotes(v.skip(1))
    } else {
        v
    }
}

/// `v` with every trailing double quote removed.
pub open spec fn trim_trailing_quotes(v: Seq<char>) -> Seq<char>
    decreases v.len(),
{
    if v.len() > 0 && v[v.len() - 1] == '"' {
        trim_trailing_quotes(v.take(v.len() - 1))
    } else {
        v
    }
}

/// `v` with every leading and trailing double quote removed.
pub open spec fn trim_quotes(v: Seq<char>) -> Seq<char> {
    trim_trailing_quotes(trim_leading_quotes(v))
}

/// The value carried by the first line of `s` that starts with `key`:
/// the rest of that line, quotes trimmed; `None` when no line starts
/// with `key`.
pub open spec fn find_key(s: Seq<char>, key: Seq<char>) -> Option<Seq<char>>
    decreases s.len(),
{
    if s.len() == 0 {
        Option::None
    } else {
        let l = first_line_len(s) as int;
        let line = s.take(l);
        if key.is_prefix_of(line) {
            Option::Some(trim_quotes(line.skip(key.len() as int)))
        } else if l < s.len() {
            find_key(s.skip(l + 1), key)
        } else {
            Option::None
        }
    }
}

/// The OS name read from the content of the release descriptor: the
/// `PRETTY_NAME` value when present, else the `NAME` value, else
/// "Unknown"; an absent or unreadable descriptor also gives "Unknown".
pub open spec fn os_name_spec(content: Option<Seq<char>>) -> Seq<char> {
    match content {
        Option::None => "Unknown"@,
        Option::Some(c) => match find_key(c, "PRETTY_NAME="@) {
            Option::Some(v) => v,
            Option::None => match find_key(c, "NAME="@) {
                Option::Some(v) => v,
                Option::None => "Unknown"@,
            },
        },
    }
}

proof fn lemma_first_line_len(s: Seq<char>, l: int)
    requires
        0 <= l <= s.len(),
        forall|k: int| 0 <= k < l ==> s[k] != '\n',
        l == s.len() || s[l] == '\n',
    ensures
        first_line_len(s) == l,
    decreases l,
{
    if l == 0 {
    } else {
        assert(s[0] != '\n');
        assert(forall|k: int| 0 <= k < l - 1 ==> s.skip(1)[k] == s[k + 1]);
        lemma_first_line_len(s.skip(1), l - 1);
    }
}

/// Whether the characters of `key` stand in `s` starting at `i`.
fn prefix_at(s: &str, i: usize, key: &str) -> (r: bool)
    requires
        i + key@.len() <= s@.len(),
        s@.len() <= usize::MAX,
    ensures
        r == (forall|t: int| 0 <= t < key@.len() ==> s@[i + t] == key@[t]),
{
    let m = key.unicode_len();
    let mut k: usize = 0;
    while k < m
        invariant
            k <= m,
            m == key@.len(),
            i + m <= s@.len(),
            s@.len() <= usize::MAX,
            forall|t: int| 0 <= t < k ==> s@[i + t] == key@[t],
        decreases m - k,
    {
        if s.get_char(i + k) != key.get_char(k) {
            assert(s@[i + k as int] != key@[k as int]);
            return false;
        }
        k = k + 1;
    }
    true
}

/// Finds the value of the first line of `s` that starts with `key`.
fn find_value(s: &str, key: &str) -> (r: Option<String>)
    ensures
        match r {
            Option::Some(v) => find_key(s@, key@) == Option::Some(v@),
            Option::None => find_key(s@, key@) is None,
        },
{
    let n = s.unicode_len();
    let klen = key.unicode_len();
    let mut i: usize = 0;
    proof {
        assert(s@.skip(0) =~= s@);
    }
    while i < n
        invariant
            i <= n,
            n == s@.len(),
            klen == key@.len(),
            find_key(s@.skip(i as int), key@) == find_key(s@, key@),
        decreases n - i,
    {
        let mut j: usize = i;
        while j < n && s.get_char(j) != '\n'
            invariant
                i <= j <= n,
                n == s@.len(),
                forall|k: int| i <= k < j ==> s@[k] != '\n',
            decreases n - j,
        {
            j = j + 1;
        }
        proof {
            assert(forall|k: int|
                0 <= k < j - i ==> s@.skip(i as int)[k] == s@[i + k] && s@[i + k] != '\n');
            if j < n {
                assert(s@.skip(i as int)[j - i] == s@[j as int]);
            }
            lemma_first_line_len(s@.skip(i as int), j - i);
        }
        let ghost line = s@.skip(i as int).take(j - i);
        proof {
            assert(line =~= s@.subrange(i as int, j as int));
        }
        if j - i >= klen && prefix_at(s, i, key) {
            proof {
                assert(line.subrange(0, klen as int) =~= key@);
                assert(key@.is_prefix_of(line));
            }
            let ghost raw = line.skip(klen as int);
            proof {
                assert(raw =~= s@.subrange(i + klen, j as int));
            }
            let mut vi: usize = i + klen;
            let mut vj: usize = j;
            while vi < vj && s.get_char(vi) == '"'
                invariant
                    i + klen <= vi <= vj,
                    vj <= n,
                    n == s@.len(),
                    raw == s@.subrange(i + klen, vj as int),
                    trim_leading_quotes(s@.subrange(vi as int, vj as int))
                        == trim_leading_quotes(raw),
                decreases vj - vi,
            {
                proof {
                    assert(s@.subrange(vi as int, vj as int).skip(1) =~= s@.subrange(
                        vi + 1,
                        vj as int,
                    ));
                }
                vi = vi + 1;
            }
            proof {
                assert(trim_leading_quotes(raw) == s@.subrange(vi as int, vj as int));
            }
            let ghost led = s@.subrange(vi as int, vj as int);
            while vi < vj && s.get_char(vj - 1) == '"'
                invariant
                    vi <= vj,
                    vj <= n,
                    n == s@.len(),
                    led == trim_leading_quotes(raw),
                    trim_trailing_quotes(s@.subrange(vi as int, vj as int))
                        == trim_trailing_quotes(led),
                decreases vj - vi,
            {
                proof {
                    assert(s@.subrange(vi as int, vj as int).take(vj - vi - 1) =~= s@.subrange(
                        vi as int,
                        vj - 1,
                    ));
                }
                vj = vj - 1;
            }
            proof {
                assert(trim_quotes(raw) == s@.subrange(vi as int, vj as int));
            }
            let v = s.substring_char(vi, vj);
            return Option::Some(String::from_str(v));
        }
        proof {
            assert(!key@.is_prefix_of(line)) by {
                if key@.is_prefix_of(line) {
                    assert(klen <= line.len());
                    assert(forall|t: int|
                        0 <= t < klen ==> key@[t] == line.subrange(0, klen as int)[t]
                            && line[t] == s@[i + t]);
                }
            }
        }
        if j >= n {
            return Option::None;
        }
        proof {
            assert(s@.skip(i as int).skip(j - i + 1) =~= s@.skip(j + 1));
        }
        i = j + 1;
    }
    proof {
        assert(s@.skip(n as int) =~= Seq::<char>::empty());
    }
    Option::None
}

/// The OS name carried by one release descriptor text.
pub fn os_name_of_str(content: &str) -> (r: String)
    ensures
        r@ == os_name_spec(Option::Some(content@)),
{
    match find_value(content, "PRETTY_NAME=") {
        Option::Some(v) => v,
        Option::None => match find_value(content, "NAME=") {
            Option::Some(v) => v,
            Option::None => String::from_str("Unknown"),
        },
    }
}

/// The OS name for an optionally read release descriptor; an absent
/// descriptor never fails the caller, it simply reads as "Unknown".
pub fn os_name_of(content: &Option<String>) -> (r: String)
    ensures
        r@ == os_name_spec(
            match content {
                Option::Some(c) => Option::Some(c@),
                Option::None => Option::None,
            },
        ),
{
    match content {
        Option::Some(c) => os_name_of_str(c.as_str()),
        Option::None => String::from_str("Unknown"),
    }
}

} // verus!
