use vstd::prelude::*;
use vstd::string::{StrSliceExecFns, StringExecFns};

verus! {

/// ".encrypted", appended to the name of every encrypted file.
pub open spec fn encrypted_suffix() -> Seq<char> {
    seq!['.', 'e', 'n', 'c', 'r', 'y', 'p', 't', 'e', 'd']
}

/// ".decrypted", appended when a decrypted file's name had no ".encrypted"
/// extension to strip.
pub open spec fn decrypted_suffix() -> Seq<char> {
    seq!['.', 'd', 'e', 'c', 'r', 'y', 'p', 't', 'e', 'd']
}

/// "_decrypted", appended to a directory name that does not end in
/// ".encrypted".
pub open spec fn decrypted_dir_suffix() -> Seq<char> {
    seq!['_', 'd', 'e', 'c', 'r', 'y', 'p', 't', 'e', 'd']
}

/// `s` ends with `suffix`.
pub open spec fn ends_with(s: Seq<char>, suffix: Seq<char>) -> bool {
    suffix.len() <= s.len() && s.subrange(s.len() - suffix.len(), s.len() as int) == suffix
}

/// The final extension of the path `p` is exactly "encrypted": the path
/// ends with ".encrypted" and the file name has a non-empty stem before it.
pub open spec fn has_encrypted_extension_spec(p: Seq<char>) -> bool {
    &&& p.len() > encrypted_suffix().len()
    &&& ends_with(p, encrypted_suffix())
    &&& p[p.len() - encrypted_suffix().len() - 1] != '/'
}

/// The name an encrypted file is stored under: its name with ".encrypted"
/// appended after any extension it already had.
pub open spec fn encrypted_name_spec(p: Seq<char>) -> Seq<char> {
    p + encrypted_suffix()
}

/// The name a decrypted file is restored to: the ".encrypted" extension
/// stripped, or ".decrypted" appended where there is none.
pub open spec fn decrypted_name_spec(p: Seq<char>) -> Seq<char> {
    if has_encrypted_extension_spec(p) {
        p.subrange(0, p.len() - encrypted_suffix().len())
    } else {
        p + decrypted_suffix()
    }
}

/// The default output directory when decrypting the directory `d`.
pub open spec fn decrypted_dir_spec(d: Seq<char>) -> Seq<char> {
    if ends_with(d, encrypted_suffix()) {
        d.subrange(0, d.len() - encrypted_suffix().len())
    } else {
        d + decrypted_dir_suffix()
    }
}

fn ends_with_str(s: &str, suffix: &str) -> (r: bool)
    ensures
        r == ends_with(s@, suffix@),
{
    let n = s.unicode_len();
    let k = suffix.unicode_len();
    if k > n {
        return false;
    }
    let mut i: usize = 0;
    while i < k
        invariant
            n == s@.len(),
            k == suffix@.len(),
            k <= n,
            i <= k,
            forall|j: int| 0 <= j < i ==> s@[n - k + j] == suffix@[j],
        decreases k - i,
    {
        if s.get_char(n - k + i) != suffix.get_char(i) {
            assert(s@.subrange(n - k, n as int)[i as int] != suffix@[i as int]);
            return false;
        }
        i = i + 1;
    }
    assert(s@.subrange(n - k, n as int) =~= suffix@);
    true
}

/// Whether the final extension of `path` is exactly "encrypted".
pub fn has_encrypted_extension(path: &str) -> (r: bool)
    ensures
        r == has_encrypted_extension_spec(path@),
{
    let suffix = ".encrypted";
    proof {
        reveal_strlit(".encrypted");
        assert(suffix@ =~= encrypted_suffix());
    }
    if !ends_with_str(path, suffix) {
        return false;
    }
    let n = path.unicode_len();
    if n <= 10 {
        return false;
    }
    path.get_char(n - 11) != '/'
}

/// The output name for an encrypted file: ".encrypted" appended to the
/// file's full name, so "report.txt" becomes "report.txt.encrypted" and
/// "README" becomes "README.encrypted".
pub fn encrypted_file_name(path: &str) -> (r: String)
    ensures
        r@ == encrypted_name_spec(path@),
{
    let suffix = ".encrypted";
    proof {
        reveal_strlit(".encrypted");
        assert(suffix@ =~= encrypted_suffix());
    }
    let mut r = String::from_str(path);
    r.append(suffix);
    r
}

/// The output name for a decrypted file: "report.txt.encrypted" becomes
/// "report.txt"; a name without that extension gets ".decrypted" appended.
pub fn decrypted_file_name(path: &str) -> (r: String)
    ensures
        r@ == decrypted_name_spec(path@),
{
    if has_encrypted_extension(path) {
        let n = path.unicode_len();
        String::from_str(path.substring_char(0, n - 10))
    } else {
        let suffix = ".decrypted";
        proof {
            reveal_strlit(".decrypted");
            assert(suffix@ =~= decrypted_suffix());
        }
        let mut r = String::from_str(path);
        r.append(suffix);
        r
    }
}

/// The default output directory when encrypting the directory `input`.
pub fn default_encrypted_dir(input: &str) -> (r: String)
    ensures
        r@ == encrypted_name_spec(input@),
{
    encrypted_file_name(input)
}

/// The default output directory when decrypting the directory `input`:
/// a trailing ".encrypted" removed, otherwise "_decrypted" appended.
pub fn default_decrypted_dir(input: &str) -> (r: String)
    ensures
        r@ == decrypted_dir_spec(input@),
{
    let suffix = ".encrypted";
    proof {
        reveal_strlit(".encrypted");
        assert(suffix@ =~= encrypted_suffix());
    }
    if ends_with_str(input, suffix) {
        let n = input.unicode_len();
        String::from_str(input.substring_char(0, n - 10))
    } else {
        let tail = "_decrypted";
        proof {
            reveal_strlit("_decrypted");
            assert(tail@ =~= decrypted_dir_suffix());
        }
        let mut r = String::from_str(input);
        r.append(tail);
        r
    }
}

/// A file name with a stem restores to itself after being named for
/// encryption and then for decryption, and the encrypted name is picked up
/// by the ".encrypted" filter of directory decryption.
pub proof fn lemma_file_name_round_trip(name: Seq<char>)
    requires
        name.len() > 0,
        name.last() != '/',
    ensures
        has_encrypted_extension_spec(encrypted_name_spec(name)),
        decrypted_name_spec(encrypted_name_spec(name)) == name,
{
    let e = encrypted_name_spec(name);
    assert(e.subrange(e.len() - 10, e.len() as int) =~= encrypted_suffix());
    assert(e[e.len() - 11] == name.last());
    assert(e.subrange(0, e.len() - 10) =~= name);
}

/// Decrypting into the default directory of an encrypted directory gives
/// back the directory name it started from.
pub proof fn lemma_dir_name_round_trip(dir: Seq<char>)
    ensures
        decrypted_dir_spec(encrypted_name_spec(dir)) == dir,
{
    let e = encrypted_name_spec(dir);
    assert(e.subrange(e.len() - 10, e.len() as int) =~= encrypted_suffix());
    assert(e.subrange(0, e.len() - 10) =~= dir);
}

} // verus!
