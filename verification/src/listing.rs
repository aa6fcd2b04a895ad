//! Shaping of one directory child, as the OS reports it, into the entry
//! handed to the UI: the extension after the final dot and the modification
//! time as decimal seconds.

use vstd::prelude::*;
use vstd::string::StrSliceExecFns;
use vstd::string::StringExecFns;

verus! {

/// One directory child as the UI sees it.
pub struct FileEntry {
    pub name: String,
    pub path: String,
    pub is_directory: bool,
    pub is_file: bool,
    pub extension: String,
    pub size: u64,
    pub modified: String,
}

/// Whether `s` holds a `.` anywhere.
pub open spec fn has_dot(s: Seq<char>) -> bool {
    exists|i: int| 0 <= i < s.len() && s[i] == '.'
}

/// The suffix of `s` after its final `.`, or empty when `s` has no `.`.
pub open spec fn extension_of(s: Seq<char>) -> Seq<char>
    decreases s.len(),
{
    if !has_dot(s) {
        Seq::<char>::empty()
    } else if s.last() == '.' {
        Seq::<char>::empty()
    } else {
        extension_of(s.drop_last()).push(s.last())
    }
}

/// When the final `.` of `s` stands at `k`, the extension is everything
/// after `k`.
proof fn lemma_extension_after_dot(s: Seq<char>, k: int)
    requires
        0 <= k < s.len(),
        s[k] == '.',
        forall|j: int| k < j < s.len() ==> s[j] != '.',
    ensures
        extension_of(s) == s.subrange(k + 1, s.len() as int),
    decreases s.len(),
{
    assert(has_dot(s));
    if k == s.len() - 1 {
        assert(extension_of(s) =~= s.subrange(k + 1, s.len() as int));
    } else {
        assert(s.last() != '.');
        assert(s.drop_last()[k] == '.');
        lemma_extension_after_dot(s.drop_last(), k);
        assert(extension_of(s) =~= s.subrange(k + 1, s.len() as int));
    }
}

/// The suffix of `name` after its final `.`, or empty when `name` has none.
pub fn extension_of_name(name: &str) -> (r: String)
    ensures
        r@ == extension_of(name@),
{
    let n = name.unicode_len();
    let mut i: usize = n;
    while i > 0
        invariant
            i <= n,
            n == name@.len(),
            forall|j: int| i <= j < n ==> name@[j] != '.',
        decreases i,
    {
        if name.get_char(i - 1) == '.' {
            let ext = name.substring_char(i, n);
            proof {
                lemma_extension_after_dot(name@, i - 1);
            }
            return ext.to_owned();
        }
        i = i - 1;
    }
    assert(!has_dot(name@));
    String::new()
}

/// The character for one decimal digit.
pub open spec fn digit_char(d: int) -> char {
    if d == 0 {
        '0'
    } else if d == 1 {
        '1'
    } else if d == 2 {
        '2'
    } else if d == 3 {
        '3'
    } else if d == 4 {
        '4'
    } else if d == 5 {
        '5'
    } else if d == 6 {
        '6'
    } else if d == 7 {
        '7'
    } else if d == 8 {
        '8'
    } else {
        '9'
    }
}

/// The decimal digits of `n`, most significant first, with no leading
/// zero except for `n == 0` itself.
pub open spec fn dec_str(n: int) -> Seq<char>
    decreases n,
{
    if n < 10 {
        seq![digit_char(n)]
    } else {
        dec_str(n / 10).push(digit_char(n % 10))
    }
}

/// The one-character string for a decimal digit.
fn digit_str(d: u64) -> (r: &'static str)
    requires
        d < 10,
    ensures
        r@ == seq![digit_char(d as int)],
{
    let r: &'static str = if d == 0 {
        "0"
    } else if d == 1 {
        "1"
    } else if d == 2 {
        "2"
    } else if d == 3 {
        "3"
    } else if d == 4 {
        "4"
    } else if d == 5 {
        "5"
    } else if d == 6 {
        "6"
    } else if d == 7 {
        "7"
    } else if d == 8 {
        "8"
    } else {
        "9"
    };
    proof {
        reveal_strlit("0");
        reveal_strlit("1");
        reveal_strlit("2");
        reveal_strlit("3");
        reveal_strlit("4");
        reveal_strlit("5");
        reveal_strlit("6");
        reveal_strlit("7");
        reveal_strlit("8");
        reveal_strlit("9");
        assert(r@ =~= seq![digit_char(d as int)]);
    }
    r
}

/// `n` written in decimal.
pub fn u64_to_decimal(n: u64) -> (r: String)
    ensures
        r@ == dec_str(n as int),
    decreases n,
{
    if n < 10 {
        digit_str(n).to_owned()
    } else {
        let mut s = u64_to_decimal(n / 10);
        s.append(digit_str(n % 10));
        proof {
            assert(s@ =~= dec_str(n as int));
        }
        s
    }
}

/// The `modified` field for a child whose modification time is `secs`
/// seconds after the Unix epoch, or unavailable.
pub open spec fn modified_repr(secs: Option<u64>) -> Seq<char> {
    match secs {
        Some(s) => dec_str(s as int),
        None => Seq::<char>::empty(),
    }
}

/// Builds the entry for one directory child from what the OS reported:
/// the extension is the suffix of `name` after its final `.`, and
/// `modified` is the decimal seconds, or empty when unavailable.
pub fn make_file_entry(
    name: String,
    path: String,
    is_directory: bool,
    is_file: bool,
    size: u64,
    modified_secs: Option<u64>,
) -> (e: FileEntry)
    ensures
        e.name == name,
        e.path == path,
        e.is_directory == is_directory,
        e.is_file == is_file,
        e.size == size,
        e.extension@ == extension_of(name@),
        e.modified@ == modified_repr(modified_secs),
{
    let extension = extension_of_name(name.as_str());
    let modified = match modified_secs {
        Some(s) => u64_to_decimal(s),
        None => String::new(),
    };
    FileEntry { name, path, is_directory, is_file, extension, size, modified }
}

} // verus!
