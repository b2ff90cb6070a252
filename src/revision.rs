use vstd::prelude::*;

verus! {

/// A source revision as the version-control tool prints it, as bytes. It is
/// only ever compared for equality.
pub type Revision = Vec<u8>;

/// Whether a byte is ASCII whitespace.
pub open spec fn is_space(b: u8) -> bool {
    b == 0x20u8 || b == 0x09u8 || b == 0x0au8 || b == 0x0bu8 || b == 0x0cu8 || b == 0x0du8
}

/// The bytes without their leading whitespace.
pub open spec fn trim_start(s: Seq<u8>) -> Seq<u8>
    decreases s.len(),
{
    if s.len() > 0 && is_space(s[0]) {
        trim_start(s.drop_first())
    } else {
        s
    }
}

/// The bytes without their trailing whitespace.
pub open spec fn trim_end(s: Seq<u8>) -> Seq<u8>
    decreases s.len(),
{
    if s.len() > 0 && is_space(s.last()) {
        trim_end(s.drop_last())
    } else {
        s
    }
}

/// The bytes without leading and trailing whitespace.
pub open spec fn trimmed(s: Seq<u8>) -> Seq<u8> {
    trim_end(trim_start(s))
}

/// Whether two revisions are the same.
pub fn same_revision(a: &Revision, b: &Revision) -> (r: bool)
    ensures
        r == (a@ == b@),
{
    if a.len() != b.len() {
        return false;
    }
    let mut i: usize = 0;
    while i < a.len()
        invariant
            a@.len() == b@.len(),
            0 <= i <= a@.len(),
            a@.subrange(0, i as int) == b@.subrange(0, i as int),
        decreases a@.len() - i,
    {
        if a[i] != b[i] {
            assert(a@[i as int] != b@[i as int]);
            return false;
        }
        assert(a@.subrange(0, i + 1) == a@.subrange(0, i as int).push(a@[i as int]));
        assert(b@.subrange(0, i + 1) == b@.subrange(0, i as int).push(b@[i as int]));
        i = i + 1;
    }
    assert(a@ == a@.subrange(0, i as int));
    assert(b@ == b@.subrange(0, i as int));
    true
}

/// The revision that the version-control tool printed: its output without
/// surrounding whitespace. `None` when the tool failed or printed nothing.
pub fn revision_from_output(succeeded: bool, stdout: &Vec<u8>) -> (r: Option<Revision>)
    ensures
        r is None <==> (!succeeded || trimmed(stdout@).len() == 0),
        r matches Some(v) ==> v@ == trimmed(stdout@),
{
    let n = stdout.len();
    let mut i: usize = 0;
    assert(stdout@.subrange(0, n as int) =~= stdout@);
    while i < n && is_ascii_space(stdout[i])
        invariant
            n == stdout@.len(),
            0 <= i <= n,
            trim_start(stdout@) == trim_start(stdout@.subrange(i as int, n as int)),
        decreases n - i,
    {
        assert(stdout@.subrange(i as int, n as int).drop_first() =~= stdout@.subrange(
            i + 1,
            n as int,
        ));
        i = i + 1;
    }
    assert(trim_start(stdout@) == stdout@.subrange(i as int, n as int));
    let mut j: usize = n;
    while j > i && is_ascii_space(stdout[j - 1])
        invariant
            n == stdout@.len(),
            0 <= i <= j <= n,
            trimmed(stdout@) == trim_end(stdout@.subrange(i as int, j as int)),
        decreases j - i,
    {
        assert(stdout@.subrange(i as int, j as int).drop_last() =~= stdout@.subrange(
            i as int,
            j - 1,
        ));
        j = j - 1;
    }
    assert(trimmed(stdout@) == stdout@.subrange(i as int, j as int));
    if !succeeded || i == j {
        return None;
    }
    let mut out: Vec<u8> = Vec::new();
    let mut k: usize = i;
    while k < j
        invariant
            n == stdout@.len(),
            i <= k <= j <= n,
            out@ == stdout@.subrange(i as int, k as int),
        decreases j - k,
    {
        out.push(stdout[k]);
        assert(out@ =~= stdout@.subrange(i as int, k + 1));
        k = k + 1;
    }
    Some(out)
}

fn is_ascii_space(b: u8) -> (r: bool)
    ensures
        r == is_space(b),
{
    b == 0x20u8 || b == 0x09u8 || b == 0x0au8 || b == 0x0bu8 || b == 0x0cu8 || b == 0x0du8
}

} // verus!
