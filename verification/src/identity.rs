use vstd::prelude::*;

verus! {

// A browser identity is a canonical name together with the set of aliases a
// user might type for it.  Alias lookup is case-insensitive and tolerant of
// spaces and escaped spaces between the words of a name: two names denote
// the same identity exactly when their normal forms agree.

/// A character the normal form keeps: anything but a space or a backslash
/// (the separators users put between the words of a browser name).
pub open spec fn keeps(c: char) -> bool {
    c != ' ' && c != '\\'
}

/// ASCII lowercase folding; every other character is kept as it is.
pub open spec fn fold_char(c: char) -> char {
    match c {
        'A' => 'a',
        'B' => 'b',
        'C' => 'c',
        'D' => 'd',
        'E' => 'e',
        'F' => 'f',
        'G' => 'g',
        'H' => 'h',
        'I' => 'i',
        'J' => 'j',
        'K' => 'k',
        'L' => 'l',
        'M' => 'm',
        'N' => 'n',
        'O' => 'o',
        'P' => 'p',
        'Q' => 'q',
        'R' => 'r',
        'S' => 's',
        'T' => 't',
        'U' => 'u',
        'V' => 'v',
        'W' => 'w',
        'X' => 'x',
        'Y' => 'y',
        'Z' => 'z',
        _ => c,
    }
}

/// The normal form of a name: separators dropped, letters folded to
/// lowercase.
pub open spec fn canonical(s: Seq<char>) -> Seq<char>
    decreases s.len(),
{
    if s.len() == 0 {
        Seq::empty()
    } else {
        canonical(s.drop_last()) + (if keeps(s.last()) {
            seq![fold_char(s.last())]
        } else {
            Seq::<char>::empty()
        })
    }
}

fn ascii_fold(c: char) -> (r: char)
    ensures
        r == fold_char(c),
{
    match c {
        'A' => 'a',
        'B' => 'b',
        'C' => 'c',
        'D' => 'd',
        'E' => 'e',
        'F' => 'f',
        'G' => 'g',
        'H' => 'h',
        'I' => 'i',
        'J' => 'j',
        'K' => 'k',
        'L' => 'l',
        'M' => 'm',
        'N' => 'n',
        'O' => 'o',
        'P' => 'p',
        'Q' => 'q',
        'R' => 'r',
        'S' => 's',
        'T' => 't',
        'U' => 'u',
        'V' => 'v',
        'W' => 'w',
        'X' => 'x',
        'Y' => 'y',
        'Z' => 'z',
        _ => c,
    }
}

/// The normal form of a name, computed character by character.
pub fn canonical_chars(s: &str) -> (r: Vec<char>)
    ensures
        r@ == canonical(s@),
{
    let n = s.unicode_len();
    let mut out: Vec<char> = Vec::new();
    let mut i: usize = 0;
    while i < n
        invariant
            n == s@.len(),
            i <= n,
            out@ == canonical(s@.take(i as int)),
        decreases n - i,
    {
        let c = s.get_char(i);
        proof {
            assert(s@.take(i + 1).drop_last() =~= s@.take(i as int));
            assert(s@.take(i + 1).last() == s@[i as int]);
        }
        if c != ' ' && c != '\\' {
            let f = ascii_fold(c);
            out.push(f);
        }
        i = i + 1;
    }
    proof {
        assert(s@.take(n as int) =~= s@);
    }
    out
}

fn char_rows_equal(a: &Vec<char>, b: &Vec<char>) -> (r: bool)
    ensures
        r == (a@ == b@),
{
    if a.len() != b.len() {
        return false;
    }
    let n = a.len();
    let mut i: usize = 0;
    while i < n
        invariant
            n == a@.len() == b@.len(),
            i <= n,
            forall|j: int| 0 <= j < i ==> a@[j] == b@[j],
        decreases n - i,
    {
        if a[i] != b[i] {
            return false;
        }
        i = i + 1;
    }
    proof {
        assert(a@ =~= b@);
    }
    true
}

/// Whether two browser names denote the same identity: equal after
/// separator-dropping and case folding.
pub fn same_identity(a: &str, b: &str) -> (r: bool)
    ensures
        r == (canonical(a@) == canonical(b@)),
{
    let ca = canonical_chars(a);
    let cb = canonical_chars(b);
    char_rows_equal(&ca, &cb)
}

/// The names recognized for Safari Technology Preview, canonical name
/// first.
pub open spec fn safaritp_alias_views() -> Seq<Seq<char>> {
    seq![
        "safaritp"@,
        "safari technology preview"@,
        "safari\\ technology\\ preview"@,
        "safaritechnologypreview"@,
    ]
}

/// The recognized alias list itself, canonical name first, for callers
/// that search installation listings by name.
pub fn safaritp_names() -> (r: Vec<&'static str>)
    ensures
        r@.len() == safaritp_alias_views().len(),
        forall|i: int| 0 <= i < r@.len() ==> (#[trigger] r@[i])@ == safaritp_alias_views()[i],
{
    let mut names: Vec<&'static str> = Vec::new();
    names.push("safaritp");
    names.push("safari technology preview");
    names.push("safari\\ technology\\ preview");
    names.push("safaritechnologypreview");
    proof {
        assert forall|i: int| 0 <= i < names@.len() implies (#[trigger] names@[i])@
            == safaritp_alias_views()[i] by {
            if i == 0 {
                assert(names@[0]@ == "safaritp"@);
                assert(safaritp_alias_views()[0] == "safaritp"@);
            } else if i == 1 {
                assert(names@[1]@ == "safari technology preview"@);
                assert(safaritp_alias_views()[1] == "safari technology preview"@);
            } else if i == 2 {
                assert(names@[2]@ == "safari\\ technology\\ preview"@);
                assert(safaritp_alias_views()[2] == "safari\\ technology\\ preview"@);
            } else {
                assert(names@[3]@ == "safaritechnologypreview"@);
                assert(safaritp_alias_views()[3] == "safaritechnologypreview"@);
            }
        }
    }
    names
}

/// Whether a name denotes the Safari Technology Preview identity.
pub open spec fn is_safaritp_alias(s: Seq<char>) -> bool {
    exists|i: int|
        0 <= i < safaritp_alias_views().len() && canonical(s) == canonical(
            #[trigger] safaritp_alias_views()[i],
        )
}

/// Whether the given name is one of the recognized Safari Technology
/// Preview aliases, up to case and separators.
pub fn matches_safaritp(name: &str) -> (r: bool)
    ensures
        r == is_safaritp_alias(name@),
{
    if same_identity(name, "safaritp") {
        proof {
            assert(canonical(name@) == canonical(safaritp_alias_views()[0]));
        }
        return true;
    }
    if same_identity(name, "safari technology preview") {
        proof {
            assert(canonical(name@) == canonical(safaritp_alias_views()[1]));
        }
        return true;
    }
    if same_identity(name, "safari\\ technology\\ preview") {
        proof {
            assert(canonical(name@) == canonical(safaritp_alias_views()[2]));
        }
        return true;
    }
    if same_identity(name, "safaritechnologypreview") {
        proof {
            assert(canonical(name@) == canonical(safaritp_alias_views()[3]));
        }
        return true;
    }
    proof {
        assert forall|i: int| 0 <= i < safaritp_alias_views().len() implies canonical(name@)
            != canonical(safaritp_alias_views()[i]) by {
            if i == 0 {
                assert(safaritp_alias_views()[0] == "safaritp"@);
            } else if i == 1 {
                assert(safaritp_alias_views()[1] == "safari technology preview"@);
            } else if i == 2 {
                assert(safaritp_alias_views()[2] == "safari\\ technology\\ preview"@);
            } else {
                assert(safaritp_alias_views()[3] == "safaritechnologypreview"@);
            }
        }
    }
    false
}

/// Maps a user-supplied name to the canonical Safari Technology Preview
/// identity, or to nothing when the name is not a recognized alias.
pub fn resolve_safaritp_identity(name: &str) -> (r: Option<&'static str>)
    ensures
        match r {
            Some(canon) => canon@ == "safaritp"@ && is_safaritp_alias(name@),
            None => !is_safaritp_alias(name@),
        },
{
    if matches_safaritp(name) {
        Some("safaritp")
    } else {
        None
    }
}

} // verus!
