//! Classification of the paths a run was asked to test.
use vstd::prelude::*;
use vstd::utf8::{encode_utf8, encode_utf8_decode_utf8};

use crate::text::{
    bytes_less, bytes_lt, ends_with, has_suffix, lemma_bytes_lt_irreflexive,
    lemma_bytes_lt_total, lemma_bytes_lt_transitive, split_lines, text_lines,
};

verus! {

/// A path after classification. The variants are listed in rank order, so
/// the derived order is by rank, then by path.
#[derive(Debug, Clone, PartialEq, Eq, PartialOrd, Ord)]
pub enum TestFile {
    Invalid(String),
    NotFound(String),
    Valid(String),
}

impl View for TestFile {
    /// The rank of the kind and the path.
    type V = (u8, Seq<char>);

    open spec fn view(&self) -> (u8, Seq<char>) {
        (self.rank_spec(), self.name_spec())
    }
}

impl TestFile {
    pub open spec fn rank_spec(&self) -> u8 {
        match self {
            TestFile::Valid(_) => 2,
            TestFile::NotFound(_) => 1,
            TestFile::Invalid(_) => 0,
        }
    }

    pub open spec fn name_spec(&self) -> Seq<char> {
        match self {
            TestFile::Valid(f) => f@,
            TestFile::NotFound(f) => f@,
            TestFile::Invalid(f) => f@,
        }
    }

    /// Rank of the kind: invalid files first, then missing ones, then valid ones.
    #[verifier::when_used_as_spec(rank_spec)]
    pub fn rank(&self) -> (r: u8)
        ensures
            r == self.rank_spec(),
    {
        match self {
            TestFile::Valid(_) => 2,
            TestFile::NotFound(_) => 1,
            TestFile::Invalid(_) => 0,
        }
    }

    pub fn name(&self) -> (r: &str)
        ensures
            r@ == self.name_spec(),
    {
        match self {
            TestFile::Valid(f) => f.as_str(),
            TestFile::NotFound(f) => f.as_str(),
            TestFile::Invalid(f) => f.as_str(),
        }
    }

    /// Whether `self` comes strictly before `other` in the classification order.
    pub fn precedes(&self, other: &TestFile) -> (r: bool)
        ensures
            r == key_lt(self@, other@),
    {
        let a = self.rank();
        let b = other.rank();
        if a != b {
            a < b
        } else {
            let x = self.name();
            let y = other.name();
            bytes_less(x.as_bytes(), y.as_bytes())
        }
    }

    /// Whether both have the same kind and the same path.
    pub fn same_as(&self, other: &TestFile) -> (r: bool)
        ensures
            r == (self@ == other@),
    {
        if self.rank() != other.rank() {
            return false;
        }
        let x = self.name();
        let y = other.name();
        let (xb, yb) = (x.as_bytes(), y.as_bytes());
        let lt = bytes_less(xb, yb);
        let gt = bytes_less(yb, xb);
        proof {
            lemma_bytes_lt_total(xb@, yb@);
            lemma_bytes_lt_irreflexive(xb@);
            encode_utf8_decode_utf8(x@);
            encode_utf8_decode_utf8(y@);
        }
        !lt && !gt
    }
}

/// The classification order: by rank, then by the path's bytes.
pub open spec fn key_lt(a: (u8, Seq<char>), b: (u8, Seq<char>)) -> bool {
    a.0 < b.0 || (a.0 == b.0 && bytes_lt(encode_utf8(a.1), encode_utf8(b.1)))
}

pub proof fn lemma_key_lt_transitive(a: (u8, Seq<char>), b: (u8, Seq<char>), c: (u8, Seq<char>))
    requires
        key_lt(a, b),
        key_lt(b, c),
    ensures
        key_lt(a, c),
{
    if a.0 == b.0 && b.0 == c.0 {
        lemma_bytes_lt_transitive(encode_utf8(a.1), encode_utf8(b.1), encode_utf8(c.1));
    }
}

pub proof fn lemma_key_lt_total(a: (u8, Seq<char>), b: (u8, Seq<char>))
    ensures
        a == b || key_lt(a, b) || key_lt(b, a),
        !key_lt(a, a),
{
    lemma_bytes_lt_total(encode_utf8(a.1), encode_utf8(b.1));
    lemma_bytes_lt_irreflexive(encode_utf8(a.1));
    encode_utf8_decode_utf8(a.1);
    encode_utf8_decode_utf8(b.1);
}

/// Strictly increasing in the classification order, hence free of duplicates.
pub open spec fn strictly_sorted(s: Seq<TestFile>) -> bool {
    forall|i: int, j: int| 0 <= i < j < s.len() ==> key_lt(#[trigger] s[i]@, #[trigger] s[j]@)
}

/// Whether some element of `s` has the kind and path `k`.
pub open spec fn has_key(s: Seq<TestFile>, k: (u8, Seq<char>)) -> bool {
    exists|i: int| 0 <= i < s.len() && #[trigger] s[i]@ == k
}

/// What the file system holds at a path given to the run.
pub enum PathKind {
    /// Nothing exists there.
    Missing,
    /// A regular file.
    File,
    /// A directory, with the test files found beneath it.
    Directory(Vec<String>),
}

/// A path given to the run, with what was found there.
pub struct PathProbe {
    pub path: String,
    pub kind: PathKind,
}

/// The suffix that names a test file.
pub open spec fn test_file_suffix() -> Seq<char> {
    "_test.nix"@
}

/// Whether a file name follows the test-file naming convention.
pub fn is_test_file_name(name: &str) -> (r: bool)
    ensures
        r == has_suffix(name@, test_file_suffix()),
{
    ends_with(name, "_test.nix")
}

/// Whether the probe of one path yields the classified file `k`.
pub open spec fn probe_yields(p: PathProbe, k: (u8, Seq<char>)) -> bool {
    match p.kind {
        PathKind::Missing => k == (1u8, p.path@),
        PathKind::File => k == (
            if has_suffix(p.path@, test_file_suffix()) {
                2u8
            } else {
                0u8
            },
            p.path@,
        ),
        PathKind::Directory(found) => k.0 == 2 && exists|j: int|
            0 <= j < found@.len() && #[trigger] found@[j]@ == k.1,
    }
}

/// Whether one of the first `n` names is `name`.
pub open spec fn names_contain(names: Seq<String>, n: int, name: Seq<char>) -> bool {
    exists|j: int| 0 <= j < n && #[trigger] names[j]@ == name
}

/// Whether some probe among the first `n` yields `k`.
pub open spec fn probes_yield(probes: Seq<PathProbe>, n: int, k: (u8, Seq<char>)) -> bool {
    exists|i: int| 0 <= i < n && #[trigger] probe_yields(probes[i], k)
}

/// Adds `f` to a strictly sorted list, keeping it strictly sorted; nothing is
/// added when an equal file is already there.
fn insert_sorted(files: &mut Vec<TestFile>, f: TestFile)
    requires
        strictly_sorted(old(files)@),
    ensures
        strictly_sorted(final(files)@),
        forall|k: (u8, Seq<char>)|
            has_key(final(files)@, k) <==> (has_key(old(files)@, k) || k == f@),
{
    let mut p: usize = 0;
    while p < files.len() && files[p].precedes(&f)
        invariant
            p <= files.len(),
            strictly_sorted(files@),
            forall|i: int| 0 <= i < p ==> key_lt(#[trigger] files@[i]@, f@),
        decreases files.len() - p,
    {
        p = p + 1;
    }
    if p < files.len() && files[p].same_as(&f) {
        return;
    }
    let ghost before = files@;
    proof {
        if p < files.len() {
            lemma_key_lt_total(files@[p as int]@, f@);
        }
        assert forall|j: int| p <= j < before.len() implies key_lt(f@, #[trigger] before[j]@) by {
            if j > p {
                lemma_key_lt_transitive(f@, before[p as int]@, before[j]@);
            }
        }
    }
    files.insert(p, f);
    proof {
        let s = files@;
        assert forall|i: int, j: int| 0 <= i < j < s.len() implies key_lt(
            #[trigger] s[i]@,
            #[trigger] s[j]@,
        ) by {
            if j < p {
                assert(s[i] == before[i]);
                assert(s[j] == before[j]);
            } else if i < p && j == p {
            } else if i < p && j > p {
                assert(s[j] == before[j - 1]);
            } else if i == p {
                assert(s[j] == before[j - 1]);
            } else {
                assert(s[i] == before[i - 1]);
                assert(s[j] == before[j - 1]);
            }
        }
        assert forall|k: (u8, Seq<char>)| has_key(s, k) <==> (has_key(before, k) || k == s[p as int]@) by {
            if has_key(s, k) {
                let i = choose|i: int| 0 <= i < s.len() && #[trigger] s[i]@ == k;
                if i < p {
                    assert(before[i]@ == k);
                } else if i > p {
                    assert(before[i - 1]@ == k);
                }
            }
            if has_key(before, k) {
                let i = choose|i: int| 0 <= i < before.len() && #[trigger] before[i]@ == k;
                if i < p {
                    assert(s[i]@ == k);
                } else {
                    assert(s[i + 1]@ == k);
                }
            }
            if k == s[p as int]@ {
                assert(s[p as int]@ == k);
            }
        }
    }
}

/// Classifies the probed paths: a missing path is not found, a file is valid
/// when its name ends in the test-file suffix and invalid otherwise, and a
/// directory contributes every test file found beneath it. The result is
/// sorted by rank and path and holds each kind and path once.
pub fn search_test_files(probes: Vec<PathProbe>) -> (r: Vec<TestFile>)
    ensures
        strictly_sorted(r@),
        forall|k: (u8, Seq<char>)| has_key(r@, k) <==> probes_yield(probes@, probes@.len() as int, k),
{
    let mut out: Vec<TestFile> = Vec::new();
    let mut i: usize = 0;
    while i < probes.len()
        invariant
            i <= probes.len(),
            strictly_sorted(out@),
            forall|k: (u8, Seq<char>)| has_key(out@, k) <==> probes_yield(probes@, i as int, k),
        decreases probes.len() - i,
    {
        let probe = &probes[i];
        let ghost prev = out@;
        match &probe.kind {
            PathKind::Missing => {
                insert_sorted(&mut out, TestFile::NotFound(probe.path.clone()));
            },
            PathKind::File => {
                if is_test_file_name(probe.path.as_str()) {
                    insert_sorted(&mut out, TestFile::Valid(probe.path.clone()));
                } else {
                    insert_sorted(&mut out, TestFile::Invalid(probe.path.clone()));
                }
            },
            PathKind::Directory(found) => {
                let mut j: usize = 0;
                while j < found.len()
                    invariant
                        j <= found.len(),
                        strictly_sorted(out@),
                        forall|k: (u8, Seq<char>)|
                            #[trigger] has_key(out@, k) <==> (has_key(prev, k) || (k.0 == 2
                                && names_contain(found@, j as int, k.1))),
                    decreases found.len() - j,
                {
                    let ghost mid = out@;
                    insert_sorted(&mut out, TestFile::Valid(found[j].clone()));
                    proof {
                        assert forall|k: (u8, Seq<char>)|
                            #[trigger] has_key(out@, k) <==> (has_key(prev, k) || (k.0 == 2
                                && names_contain(found@, j + 1, k.1))) by {
                            if names_contain(found@, j + 1, k.1) {
                                let jj = choose|jj: int| 0 <= jj < j + 1 && #[trigger] found@[jj]@ == k.1;
                                if jj < j {
                                    assert(names_contain(found@, j as int, k.1));
                                }
                            }
                            if names_contain(found@, j as int, k.1) {
                                let jj = choose|jj: int| 0 <= jj < j && #[trigger] found@[jj]@ == k.1;
                                assert(names_contain(found@, j + 1, k.1));
                            }
                            if k == (2u8, found@[j as int]@) {
                                assert(names_contain(found@, j + 1, k.1));
                            }
                        }
                    }
                    j = j + 1;
                }
            },
        }
        assert forall|k: (u8, Seq<char>)|
            #[trigger] has_key(out@, k) <==> (has_key(prev, k) || probe_yields(probes@[i as int], k)) by {
            if let PathKind::Directory(found) = &probe.kind {
                if probe_yields(probes@[i as int], k) {
                    let jj = choose|jj: int| 0 <= jj < found@.len() && #[trigger] found@[jj]@ == k.1;
                    assert(names_contain(found@, found@.len() as int, k.1));
                }
                if names_contain(found@, found@.len() as int, k.1) {
                    let jj = choose|jj: int| 0 <= jj < found@.len() && #[trigger] found@[jj]@ == k.1;
                }
            }
        }
        proof {
            assert forall|k: (u8, Seq<char>)| has_key(out@, k) <==> probes_yield(probes@, i + 1, k) by {
                if probes_yield(probes@, i + 1, k) {
                    let w = choose|w: int| 0 <= w < i + 1 && #[trigger] probe_yields(probes@[w], k);
                    if w < i {
                        assert(probes_yield(probes@, i as int, k));
                    }
                }
                if probes_yield(probes@, i as int, k) {
                    let w = choose|w: int| 0 <= w < i && #[trigger] probe_yields(probes@[w], k);
                    assert(probes_yield(probes@, i + 1, k));
                }
                if probe_yields(probes@[i as int], k) {
                    assert(probes_yield(probes@, i + 1, k));
                }
            }
        }
        i = i + 1;
    }
    out
}

/// The files a search command printed, one per line.
pub fn files_from_output(stdout: &str) -> (r: Vec<String>)
    ensures
        r@.map_values(|l: String| l@) == text_lines(stdout@),
{
    split_lines(stdout)
}

/// A way of listing the test files beneath a directory with an external
/// program.
pub trait SearchTestFiles {
    /// Whether `command`, a program and its arguments, lists the test files
    /// beneath `dir`.
    spec fn lists_test_files(&self, dir: Seq<char>, command: Seq<Seq<char>>) -> bool;

    /// The program and its arguments.
    fn find_files_command(&self, dir: &str) -> (r: Vec<String>)
        ensures
            self.lists_test_files(dir@, r@.map_values(|s: String| s@)),
    ;
}

/// Lists test files with ripgrep.
pub struct RgSearchTestFiles;

/// Lists test files with `find`.
pub struct FindSearchTestFiles;

impl RgSearchTestFiles {
    pub fn command(&self, dir: &str) -> (r: Vec<String>)
        ensures
            r@.map_values(|s: String| s@) == seq!["rg"@, "--files"@, "--glob"@, "*_test.nix"@, dir@],
    {
        let mut v: Vec<String> = Vec::new();
        v.push("rg".to_owned());
        v.push("--files".to_owned());
        v.push("--glob".to_owned());
        v.push("*_test.nix".to_owned());
        v.push(dir.to_owned());
        assert(v@.map_values(|s: String| s@) =~= seq!["rg"@, "--files"@, "--glob"@, "*_test.nix"@, dir@]);
        v
    }
}

impl FindSearchTestFiles {
    pub fn command(&self, dir: &str) -> (r: Vec<String>)
        ensures
            r@.map_values(|s: String| s@) == seq!["find"@, dir@, "-name"@, "*_test.nix"@, "-type"@, "f"@],
    {
        let mut v: Vec<String> = Vec::new();
        v.push("find".to_owned());
        v.push(dir.to_owned());
        v.push("-name".to_owned());
        v.push("*_test.nix".to_owned());
        v.push("-type".to_owned());
        v.push("f".to_owned());
        assert(v@.map_values(|s: String| s@) =~= seq!["find"@, dir@, "-name"@, "*_test.nix"@, "-type"@, "f"@]);
        v
    }
}

impl SearchTestFiles for RgSearchTestFiles {
    open spec fn lists_test_files(&self, dir: Seq<char>, command: Seq<Seq<char>>) -> bool {
        command == seq!["rg"@, "--files"@, "--glob"@, "*_test.nix"@, dir]
    }

    fn find_files_command(&self, dir: &str) -> Vec<String> {
        self.command(dir)
    }
}

impl SearchTestFiles for FindSearchTestFiles {
    open spec fn lists_test_files(&self, dir: Seq<char>, command: Seq<Seq<char>>) -> bool {
        command == seq!["find"@, dir, "-name"@, "*_test.nix"@, "-type"@, "f"@]
    }

    fn find_files_command(&self, dir: &str) -> Vec<String> {
        self.command(dir)
    }
}

} // verus!
