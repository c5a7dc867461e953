//! Decides whether two files are byte-for-byte copies of each other.
//!
//! A file is described to this library by plain values: its path (as the
//! string the caller used to name it), its size in bytes as reported by the
//! filesystem, and its content as a byte sequence. The caller performs the
//! filesystem reads and feeds the values in stages; each stage either
//! resolves the comparison or says what to fetch next, so that content is
//! only read when the cheaper checks could not decide.

use vstd::prelude::*;
use vstd::utf8::encode_utf8_decode_utf8;

verus! {

/// What the caller must do next to finish a comparison, or the verdict if
/// one stage already decided it.
#[derive(Clone, Copy, Debug, PartialEq, Eq, Structural)]
pub enum Step {
    /// The comparison is decided: `true` means the files are copies.
    Resolved(bool),
    /// Fetch the two files' sizes from filesystem metadata.
    ReadSizes,
    /// Fetch the two files' full contents.
    ReadContents,
}

/// What it means for two files to be copies of each other: they are named
/// by the same path, or their contents are identical byte for byte.
pub open spec fn copies(
    path_a: Seq<char>,
    path_b: Seq<char>,
    content_a: Seq<u8>,
    content_b: Seq<u8>,
) -> bool {
    path_a == path_b || content_a == content_b
}

/// Compares two byte slices for exact equality.
fn bytes_equal(a: &[u8], b: &[u8]) -> (r: bool)
    ensures
        r == (a@ == b@),
{
    if a.len() != b.len() {
        return false;
    }
    let mut i: usize = 0;
    while i < a.len()
        invariant
            i <= a@.len(),
            a@.len() == b@.len(),
            forall|j: int| 0 <= j < i ==> a@[j] == b@[j],
        decreases a@.len() - i,
    {
        if a[i] != b[i] {
            return false;
        }
        i += 1;
    }
    proof {
        assert(a@ =~= b@);
    }
    true
}

/// Compares two path strings for textual equality. This is the identity
/// check: it does not resolve symlinks or consult the filesystem.
pub fn paths_equal(path_a: &str, path_b: &str) -> (r: bool)
    ensures
        r == (path_a@ == path_b@),
{
    let r = bytes_equal(path_a.as_bytes(), path_b.as_bytes());
    proof {
        encode_utf8_decode_utf8(path_a@);
        encode_utf8_decode_utf8(path_b@);
    }
    r
}

/// First stage: two files named by the same path are copies of each other,
/// without touching the filesystem; otherwise their sizes decide next.
pub fn compare_paths(path_a: &str, path_b: &str) -> (s: Step)
    ensures
        path_a@ == path_b@ ==> s == Step::Resolved(true),
        path_a@ != path_b@ ==> s == Step::ReadSizes,
{
    if paths_equal(path_a, path_b) {
        Step::Resolved(true)
    } else {
        Step::ReadSizes
    }
}

/// Second stage: files of different sizes cannot be copies, and their
/// contents need not be read; equal sizes leave the contents to decide.
pub fn compare_sizes(size_a: u64, size_b: u64) -> (s: Step)
    ensures
        size_a != size_b ==> s == Step::Resolved(false),
        size_a == size_b ==> s == Step::ReadContents,
{
    if size_a != size_b {
        Step::Resolved(false)
    } else {
        Step::ReadContents
    }
}

/// Last stage: with equal paths and sizes ruled out, the files are copies
/// exactly when their contents match byte for byte.
pub fn compare_contents(content_a: &[u8], content_b: &[u8]) -> (r: bool)
    ensures
        r == (content_a@ == content_b@),
{
    bytes_equal(content_a, content_b)
}

/// Runs the three stages over in-memory data: the whole comparison for a
/// caller that already holds both files' contents.
pub fn is_copy_data(path_a: &str, path_b: &str, content_a: &[u8], content_b: &[u8]) -> (r: bool)
    ensures
        r == copies(path_a@, path_b@, content_a@, content_b@),
{
    match compare_paths(path_a, path_b) {
        Step::Resolved(v) => v,
        _ => {
            let size_a: u64 = content_a.len() as u64;
            let size_b: u64 = content_b.len() as u64;
            match compare_sizes(size_a, size_b) {
                Step::Resolved(v) => {
                    proof {
                        lemma_size_short_circuit(path_a@, path_b@, content_a@, content_b@);
                    }
                    v
                },
                _ => compare_contents(content_a, content_b),
            }
        },
    }
}

/// Reflexivity: a file compared with itself is always a copy of itself,
/// whatever its content.
pub proof fn lemma_reflexive(p: Seq<char>, c: Seq<u8>)
    ensures
        copies(p, p, c, c),
{
}

/// Symmetry: comparing two files in either order gives the same verdict.
pub proof fn lemma_symmetric(
    path_a: Seq<char>,
    path_b: Seq<char>,
    content_a: Seq<u8>,
    content_b: Seq<u8>,
)
    ensures
        copies(path_a, path_b, content_a, content_b) == copies(
            path_b,
            path_a,
            content_b,
            content_a,
        ),
{
}

/// Size short-circuit: for distinctly named files whose sizes differ, the
/// verdict is `false` and does not depend on the contents beyond their
/// lengths.
pub proof fn lemma_size_short_circuit(
    path_a: Seq<char>,
    path_b: Seq<char>,
    content_a: Seq<u8>,
    content_b: Seq<u8>,
)
    requires
        path_a != path_b,
        content_a.len() != content_b.len(),
    ensures
        !copies(path_a, path_b, content_a, content_b),
{
}

/// Exact-content sensitivity: two distinctly named files of equal size
/// that differ in their final byte are not copies, so no check that looks
/// at a proper prefix of the contents alone could be sound.
pub proof fn lemma_last_byte_decides(
    path_a: Seq<char>,
    path_b: Seq<char>,
    content_a: Seq<u8>,
    content_b: Seq<u8>,
)
    requires
        path_a != path_b,
        content_a.len() == content_b.len(),
        content_a.len() > 0,
        content_a.last() != content_b.last(),
    ensures
        !copies(path_a, path_b, content_a, content_b),
{
}

/// Copy equivalence: a byte-for-byte duplicate of a file, under any path,
/// is a copy of it.
pub proof fn lemma_copy_equivalence(path_a: Seq<char>, path_b: Seq<char>, c: Seq<u8>)
    ensures
        copies(path_a, path_b, c, c),
{
}

} // verus!
