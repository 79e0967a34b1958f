//! The names of the built assets.
//!
//! A build may put a hash into the file names of the stylesheet, the script
//! and the WebAssembly module. It then writes a hash file beside them: one
//! line per kind of asset, `kind:hash`. The functions here read such a file's
//! text and say under which path each asset is served.

use vstd::prelude::*;

verus! {

/// Whether `c` is white space, as the Unicode property `White_Space` has
/// it.
pub open spec fn is_space(c: char) -> bool {
    let u = c as u32;
    (0x09 <= u <= 0x0D) || u == 0x20 || u == 0x85 || u == 0xA0 || u == 0x1680 || (0x2000 <= u
        <= 0x200A) || u == 0x2028 || u == 0x2029 || u == 0x202F || u == 0x205F || u == 0x3000
}

/// `s` without the white space at its two ends.
pub open spec fn trimmed(s: Seq<char>) -> Seq<char>
    decreases s.len(),
{
    if s.len() > 0 && is_space(s.first()) {
        trimmed(s.drop_first())
    } else if s.len() > 0 && is_space(s.last()) {
        trimmed(s.drop_last())
    } else {
        s
    }
}

/// The position of the first `c` in `s`; the length of `s` where it holds
/// none.
pub open spec fn first_index(s: Seq<char>, c: char) -> int
    decreases s.len(),
{
    if s.len() == 0 {
        0
    } else if s.first() == c {
        0
    } else {
        1 + first_index(s.drop_first(), c)
    }
}

/// What one line of a hash file adds to the name of the asset of kind
/// `kind`: a dot and the hash, where the line reads `kind:hash`, and nothing
/// otherwise. White space around the line and around the hash does not
/// count; the kind must stand exactly before the first colon.
pub open spec fn line_suffix(line: Seq<char>, kind: Seq<char>) -> Seq<char> {
    let entry = trimmed(line);
    let colon = first_index(entry, ':');
    if 0 <= colon < entry.len() && entry.take(colon) == kind {
        seq!['.'] + trimmed(entry.skip(colon + 1))
    } else {
        Seq::empty()
    }
}

/// What a hash file adds to the name of the asset of kind `kind`: what each
/// of its lines adds, in order.
pub open spec fn hash_suffix(text: Seq<char>, kind: Seq<char>) -> Seq<char>
    decreases text.len(),
{
    let end = first_index(text, '\n');
    if 0 <= end < text.len() {
        line_suffix(text.take(end), kind) + hash_suffix(text.skip(end + 1), kind)
    } else {
        line_suffix(text, kind)
    }
}

/// What the hash file adds, where there is one.
pub open spec fn optional_suffix(hashes: Option<Seq<char>>, kind: Seq<char>) -> Seq<char> {
    match hashes {
        Some(text) => hash_suffix(text, kind),
        None => Seq::empty(),
    }
}

proof fn lemma_first_index(s: Seq<char>, c: char, at: int)
    requires
        0 <= at <= s.len(),
        forall|k: int| 0 <= k < at ==> s[k] != c,
        at < s.len() ==> s[at] == c,
    ensures
        first_index(s, c) == at,
    decreases s.len(),
{
    if s.len() > 0 && at > 0 {
        let rest = s.drop_first();
        assert forall|k: int| 0 <= k < at - 1 implies rest[k] != c by {
            assert(rest[k] == s[k + 1]);
        }
        lemma_first_index(rest, c, at - 1);
    }
}

fn is_space_char(c: char) -> (b: bool)
    ensures
        b == is_space(c),
{
    let u = c as u32;
    (0x09 <= u && u <= 0x0D) || u == 0x20 || u == 0x85 || u == 0xA0 || u == 0x1680 || (0x2000 <= u
        && u <= 0x200A) || u == 0x2028 || u == 0x2029 || u == 0x202F || u == 0x205F || u == 0x3000
}

/// The characters of `s`, one by one.
fn to_chars(s: &str) -> (v: Vec<char>)
    ensures
        v@ == s@,
{
    broadcast use vstd::string::group_string_axioms;

    let mut v: Vec<char> = Vec::new();
    for c in it: s.chars()
        invariant
            it.seq() == s@,
            v@ == it.seq().take(it.index() as int),
    {
        v.push(c);
        proof {
            assert(v@ =~= it.seq().take(it.index() + 1));
        }
    }
    proof {
        assert(v@ =~= s@);
    }
    v
}

/// The bounds of the part of `chars[lo..hi]` that is left when the white
/// space at its two ends is taken off.
fn trim_range(chars: &Vec<char>, lo: usize, hi: usize) -> (r: (usize, usize))
    requires
        lo <= hi <= chars.len(),
    ensures
        lo <= r.0 <= r.1 <= hi,
        chars@.subrange(r.0 as int, r.1 as int) == trimmed(chars@.subrange(lo as int, hi as int)),
{
    let mut a = lo;
    while a < hi && is_space_char(chars[a])
        invariant
            lo <= a <= hi <= chars.len(),
            trimmed(chars@.subrange(lo as int, hi as int)) == trimmed(
                chars@.subrange(a as int, hi as int),
            ),
        decreases hi - a,
    {
        proof {
            let here = chars@.subrange(a as int, hi as int);
            assert(here.first() == chars@[a as int]);
            assert(here.drop_first() =~= chars@.subrange(a + 1, hi as int));
        }
        a += 1;
    }
    let mut b = hi;
    while b > a && is_space_char(chars[b - 1])
        invariant
            lo <= a <= b <= hi <= chars.len(),
            a < hi ==> !is_space(chars@[a as int]),
            trimmed(chars@.subrange(lo as int, hi as int)) == trimmed(
                chars@.subrange(a as int, b as int),
            ),
        decreases b - a,
    {
        proof {
            let here = chars@.subrange(a as int, b as int);
            assert(here.first() == chars@[a as int]);
            assert(here.last() == chars@[b - 1]);
            assert(here.drop_last() =~= chars@.subrange(a as int, b - 1));
        }
        b -= 1;
    }
    proof {
        let here = chars@.subrange(a as int, b as int);
        if a < b {
            assert(here.first() == chars@[a as int]);
            assert(here.last() == chars@[b - 1]);
        }
    }
    (a, b)
}

/// The position of the first `c` in `chars[lo..hi]`, or `hi`.
fn find_char(chars: &Vec<char>, lo: usize, hi: usize, c: char) -> (at: usize)
    requires
        lo <= hi <= chars.len(),
    ensures
        lo <= at <= hi,
        at - lo == first_index(chars@.subrange(lo as int, hi as int), c),
{
    let mut at = lo;
    while at < hi && chars[at] != c
        invariant
            lo <= at <= hi <= chars.len(),
            forall|k: int| lo <= k < at ==> chars@[k] != c,
        decreases hi - at,
    {
        at += 1;
    }
    proof {
        lemma_first_index(chars@.subrange(lo as int, hi as int), c, at - lo);
    }
    at
}

/// Whether `chars[lo..hi]` reads `word`.
fn range_is(chars: &Vec<char>, lo: usize, hi: usize, word: &Vec<char>) -> (b: bool)
    requires
        lo <= hi <= chars.len(),
    ensures
        b == (chars@.subrange(lo as int, hi as int) == word@),
{
    if hi - lo != word.len() {
        return false;
    }
    let n = word.len();
    let mut i: usize = 0;
    while i < n
        invariant
            lo <= hi <= chars.len(),
            n == word.len(),
            n == hi - lo,
            i <= n,
            forall|k: int| 0 <= k < i ==> chars@[lo + k] == word@[k],
        decreases n - i,
    {
        if chars[lo + i] != word[i] {
            proof {
                assert(chars@.subrange(lo as int, hi as int)[i as int] != word@[i as int]);
            }
            return false;
        }
        i += 1;
    }
    proof {
        assert(chars@.subrange(lo as int, hi as int) =~= word@);
    }
    true
}

/// Reads the hash file's text `text` and gives what it adds to the name of
/// the asset of kind `kind`.
pub fn read_hash_suffix(text: &str, kind: &str) -> (suffix: String)
    ensures
        suffix@ == hash_suffix(text@, kind@),
{
    let chars = to_chars(text);
    let word = to_chars(kind);
    let n = chars.len();
    let mut suffix = String::new();
    let mut start: usize = 0;
    let mut more = true;
    proof {
        assert(chars@.subrange(0, n as int) =~= chars@);
    }
    while more
        invariant
            chars@ == text@,
            word@ == kind@,
            n == chars.len(),
            start <= n,
            more ==> suffix@ + hash_suffix(chars@.subrange(start as int, n as int), word@)
                == hash_suffix(chars@, word@),
            !more ==> suffix@ == hash_suffix(chars@, word@),
        decreases n - start + (if more { 1int } else { 0int }),
    {
        let ghost rest = chars@.subrange(start as int, n as int);
        let end = find_char(&chars, start, n, '\n');
        let ghost line = chars@.subrange(start as int, end as int);
        let (a, b) = trim_range(&chars, start, end);
        let colon = find_char(&chars, a, b, ':');
        let ghost before = suffix@;
        if colon < b && range_is(&chars, a, colon, &word) {
            let (c, d) = trim_range(&chars, colon + 1, b);
            suffix.append(".");
            suffix.append(text.substring_char(c, d));
            proof {
                reveal_strlit(".");
                let entry = chars@.subrange(a as int, b as int);
                assert(entry.take(colon - a) =~= chars@.subrange(a as int, colon as int));
                assert(entry.skip(colon - a + 1) =~= chars@.subrange(colon + 1, b as int));
                assert("."@ =~= seq!['.']);
                assert(suffix@ =~= before + line_suffix(line, word@));
            }
        } else {
            proof {
                let entry = chars@.subrange(a as int, b as int);
                assert(entry.take(colon - a) =~= chars@.subrange(a as int, colon as int));
                assert(suffix@ =~= before + line_suffix(line, word@));
            }
        }
        proof {
            assert(rest.take(end - start) =~= line);
            if end < n {
                assert(rest.skip(end - start + 1) =~= chars@.subrange(end + 1, n as int));
            } else {
                assert(line =~= rest);
            }
        }
        if end < n {
            start = end + 1;
        } else {
            more = false;
        }
    }
    suffix
}

fn suffix_of(hashes: Option<&str>, kind: &str) -> (suffix: String)
    ensures
        suffix@ == optional_suffix(
            match hashes {
                Some(text) => Some(text@),
                None => None,
            },
            kind@,
        ),
{
    match hashes {
        Some(text) => read_hash_suffix(text, kind),
        None => String::new(),
    }
}

fn href(pkg_path: &str, output_name: &str, suffix: &str, extension: &str) -> (s: String)
    ensures
        s@ == "/"@ + pkg_path@ + "/"@ + output_name@ + suffix@ + extension@,
{
    let mut s = "/".to_owned();
    s.append(pkg_path);
    s.append("/");
    s.append(output_name);
    s.append(suffix);
    s.append(extension);
    s
}

/// The path under which the stylesheet is served: the package directory,
/// the output name, what the hash file adds for `css`, and `.css`.
pub fn stylesheet_href(pkg_path: &str, output_name: &str, hashes: Option<&str>) -> (s: String)
    ensures
        s@ == "/"@ + pkg_path@ + "/"@ + output_name@ + optional_suffix(
            match hashes {
                Some(text) => Some(text@),
                None => None,
            },
            "css"@,
        ) + ".css"@,
{
    let suffix = suffix_of(hashes, "css");
    href(pkg_path, output_name, suffix.as_str(), ".css")
}

/// The path under which the script is served: the package directory, the
/// output name, what the hash file adds for `js`, and `.js`.
pub fn script_href(pkg_path: &str, output_name: &str, hashes: Option<&str>) -> (s: String)
    ensures
        s@ == "/"@ + pkg_path@ + "/"@ + output_name@ + optional_suffix(
            match hashes {
                Some(text) => Some(text@),
                None => None,
            },
            "js"@,
        ) + ".js"@,
{
    let suffix = suffix_of(hashes, "js");
    href(pkg_path, output_name, suffix.as_str(), ".js")
}

/// What stands between the output name and the extension of the
/// WebAssembly module. With hashed file names it is what the hash file adds
/// for `wasm`. Without them the bundler's own name carries `_bg`, unless the
/// output name was fixed at build time.
pub open spec fn wasm_infix(
    hash_files: bool,
    hashes: Option<Seq<char>>,
    output_name_fixed: bool,
) -> Seq<char> {
    if hash_files {
        optional_suffix(hashes, "wasm"@)
    } else if !output_name_fixed {
        "_bg"@
    } else {
        Seq::empty()
    }
}

/// The path under which the WebAssembly module is served.
pub fn wasm_href(
    pkg_path: &str,
    output_name: &str,
    hash_files: bool,
    hashes: Option<&str>,
    output_name_fixed: bool,
) -> (s: String)
    ensures
        s@ == "/"@ + pkg_path@ + "/"@ + output_name@ + wasm_infix(
            hash_files,
            match hashes {
                Some(text) => Some(text@),
                None => None,
            },
            output_name_fixed,
        ) + ".wasm"@,
{
    let infix = if hash_files {
        suffix_of(hashes, "wasm")
    } else if !output_name_fixed {
        "_bg".to_owned()
    } else {
        String::new()
    };
    href(pkg_path, output_name, infix.as_str(), ".wasm")
}

} // verus!
