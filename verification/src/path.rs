//! Unix paths, as the bytes they are made of.
use vstd::arithmetic::div_mod::lemma_div_denominator;
use vstd::arithmetic::power::{lemma_pow_positive, pow};
use vstd::prelude::*;

verus! {

/// `/`
pub const SLASH: u8 = 47;

/// `.`
pub const DOT: u8 = 46;

/// `0`
pub const ZERO: u8 = 48;

/// `s` without the slashes and `.` components it ends with. The slash or the
/// `.` that a path starts with stays.
pub open spec fn strip_tail(s: Seq<u8>) -> Seq<u8>
    decreases s.len(),
{
    if s.len() > 1 && (s.last() == SLASH || (s.last() == DOT && s[s.len() - 2] == SLASH)) {
        strip_tail(s.drop_last())
    } else {
        s
    }
}

/// Position behind the last slash of `s`.
pub open spec fn segment_start(s: Seq<u8>) -> nat
    decreases s.len(),
{
    if s.len() == 0 || s.last() == SLASH {
        s.len()
    } else {
        segment_start(s.drop_last())
    }
}

/// The last component of a path, if it names a file or directory: not where the
/// path ends in `..`, nor where it is the root, `.` or empty.
pub open spec fn file_name(path: Seq<u8>) -> Option<Seq<u8>> {
    let s = strip_tail(path);
    let name = s.skip(segment_start(s) as int);
    let dots = forall|i: int| 0 <= i < name.len() ==> name[i] == DOT;
    if name.len() == 0 || (name.len() <= 2 && dots) {
        None
    } else {
        Some(name)
    }
}

/// A path without its last component, where [`file_name`] gives that component.
pub open spec fn parent(path: Seq<u8>) -> Seq<u8> {
    let s = strip_tail(path);
    strip_tail(s.take(segment_start(s) as int))
}

/// The file `name` in the directory `dir`.
pub open spec fn joined(dir: Seq<u8>, name: Seq<u8>) -> Seq<u8> {
    if dir.len() == 0 || dir.last() == SLASH {
        dir + name
    } else {
        dir.push(SLASH) + name
    }
}

/// `n` in decimal.
pub open spec fn decimal(n: nat) -> Seq<u8>
    decreases n,
{
    if n < 10 {
        seq![(ZERO + n) as u8]
    } else {
        decimal(n / 10).push((ZERO + n % 10) as u8)
    }
}

/// Length of the part of `path` before `to` that `strip_tail` leaves.
fn stripped_len(path: &[u8], to: usize) -> (len: usize)
    requires
        to <= path@.len(),
    ensures
        len <= to,
        path@.take(len as int) == strip_tail(path@.take(to as int)),
{
    let mut len: usize = to;
    while len > 1 && (path[len - 1] == SLASH || (path[len - 1] == DOT && path[len - 2] == SLASH))
        invariant
            len <= to <= path@.len(),
            strip_tail(path@.take(len as int)) == strip_tail(path@.take(to as int)),
        decreases len,
    {
        assert(path@.take(len as int).drop_last() =~= path@.take(len - 1));
        len = len - 1;
    }
    len
}

/// Position behind the last slash of the part of `path` before `to`.
fn segment_start_before(path: &[u8], to: usize) -> (start: usize)
    requires
        to <= path@.len(),
    ensures
        start <= to,
        start == segment_start(path@.take(to as int)),
{
    let mut start: usize = to;
    while start > 0 && path[start - 1] != SLASH
        invariant
            start <= to <= path@.len(),
            segment_start(path@.take(start as int)) == segment_start(path@.take(to as int)),
        decreases start,
    {
        assert(path@.take(start as int).drop_last() =~= path@.take(start - 1));
        start = start - 1;
    }
    start
}

/// The bytes of `path` from `from` to `to`.
fn copy_range(path: &[u8], from: usize, to: usize) -> (bytes: Vec<u8>)
    requires
        from <= to <= path@.len(),
    ensures
        bytes@ == path@.subrange(from as int, to as int),
{
    let mut bytes: Vec<u8> = Vec::new();
    let mut i: usize = from;
    while i < to
        invariant
            from <= i <= to <= path@.len(),
            bytes@ == path@.subrange(from as int, i as int),
        decreases to - i,
    {
        bytes.push(path[i]);
        i = i + 1;
    }
    bytes
}

/// The last component of a path, if it names a file or directory.
pub fn path_file_name(path: &[u8]) -> (name: Option<Vec<u8>>)
    ensures
        name is Some <==> file_name(path@) is Some,
        name is Some ==> name->0@ == file_name(path@)->0,
{
    let len: usize = stripped_len(path, path.len());
    let start: usize = segment_start_before(path, len);
    let name = copy_range(path, start, len);
    proof {
        assert(path@.take(path@.len() as int) =~= path@);
        assert(path@.take(len as int).skip(start as int) =~= name@);
    }
    if name.len() == 0 || (name.len() == 1 && name[0] == DOT) || (name.len() == 2 && name[0]
        == DOT && name[1] == DOT) {
        None
    } else {
        Some(name)
    }
}

/// A path without its last component.
pub fn path_parent(path: &[u8]) -> (dir: Vec<u8>)
    ensures
        dir@ == parent(path@),
{
    let len: usize = stripped_len(path, path.len());
    let start: usize = segment_start_before(path, len);
    let dir_len: usize = stripped_len(path, start);
    proof {
        assert(path@.take(path@.len() as int) =~= path@);
        assert(path@.take(len as int).take(start as int) =~= path@.take(start as int));
        assert(path@.subrange(0, dir_len as int) =~= path@.take(dir_len as int));
    }
    copy_range(path, 0, dir_len)
}

/// The file `name` in the directory `dir`.
pub fn path_join(dir: &Vec<u8>, name: &Vec<u8>) -> (path: Vec<u8>)
    ensures
        path@ == joined(dir@, name@),
{
    let mut path = copy_range(dir.as_slice(), 0, dir.len());
    assert(path@ =~= dir@);
    if dir.len() > 0 && dir[dir.len() - 1] != SLASH {
        path.push(SLASH);
    }
    let mut rest = copy_range(name.as_slice(), 0, name.len());
    assert(rest@ =~= name@);
    path.append(&mut rest);
    path
}

/// Appends `n` in decimal.
pub fn push_decimal(bytes: &mut Vec<u8>, n: usize)
    ensures
        final(bytes)@ == old(bytes)@ + decimal(n as nat),
    decreases n,
{
    if n >= 10 {
        push_decimal(bytes, n / 10);
    }
    bytes.push(ZERO + (n % 10) as u8);
}

proof fn lemma_strip_idempotent(s: Seq<u8>)
    ensures
        strip_tail(strip_tail(s)) == strip_tail(s),
    decreases s.len(),
{
    if s.len() > 1 && (s.last() == SLASH || (s.last() == DOT && s[s.len() - 2] == SLASH)) {
        lemma_strip_idempotent(s.drop_last());
    }
}

/// The segment of a path behind its last slash holds no slash.
proof fn lemma_segment(s: Seq<u8>)
    ensures
        segment_start(s) <= s.len(),
        !s.skip(segment_start(s) as int).contains(SLASH),
    decreases s.len(),
{
    if s.len() > 0 && s.last() != SLASH {
        let init = s.drop_last();
        lemma_segment(init);
        let start = segment_start(init) as int;
        let name = s.skip(start);
        if name.contains(SLASH) {
            let j = choose|j: int| 0 <= j < name.len() && name[j] == SLASH;
            assert(init.skip(start)[j] == SLASH);
        }
    }
}

/// A name behind a slash, or at the start, is the last segment.
proof fn lemma_segment_of(dir: Seq<u8>, name: Seq<u8>)
    requires
        dir.len() == 0 || dir.last() == SLASH,
        !name.contains(SLASH),
    ensures
        segment_start(dir + name) == dir.len(),
    decreases name.len(),
{
    let s = dir + name;
    if name.len() == 0 {
        assert(s =~= dir);
    } else {
        let init = name.drop_last();
        assert(s.last() == name[name.len() - 1]);
        assert(s.drop_last() =~= dir + init);
        assert forall|j: int| 0 <= j < init.len() implies init[j] != SLASH by {
            assert(name[j] == init[j]);
        }
        lemma_segment_of(dir, init);
    }
}

/// The file name of a path holds no slash, and its directory needs no further
/// stripping.
pub proof fn law_file_name(path: Seq<u8>)
    requires
        file_name(path) is Some,
    ensures
        file_name(path)->0.len() > 0,
        !file_name(path)->0.contains(SLASH),
        strip_tail(parent(path)) == parent(path),
{
    let s = strip_tail(path);
    lemma_segment(s);
    lemma_strip_idempotent(s.take(segment_start(s) as int));
}

/// A file joined to a directory has that directory and its own name, where it
/// does not end in a dot.
pub proof fn law_joined(dir: Seq<u8>, name: Seq<u8>)
    requires
        strip_tail(dir) == dir,
        name.len() > 0,
        !name.contains(SLASH),
        name.last() != DOT,
    ensures
        file_name(joined(dir, name)) == Some(name),
        parent(joined(dir, name)) == dir,
{
    let start = if dir.len() == 0 || dir.last() == SLASH {
        dir
    } else {
        dir.push(SLASH)
    };
    let s = joined(dir, name);
    assert(s == start + name);
    assert(s.last() == name[name.len() - 1]);
    assert(strip_tail(s) == s);
    lemma_segment_of(start, name);
    assert(s.skip(start.len() as int) =~= name);
    assert(s.take(start.len() as int) =~= start);
    assert(name[name.len() - 1] != DOT);
    if start != dir {
        assert(start.drop_last() =~= dir);
    }
}

proof fn lemma_decimal_len(n: nat)
    ensures
        decimal(n).len() > 0,
        n >= 10 ==> decimal(n).len() > 1,
        ZERO <= decimal(n).last() <= ZERO + 9,
    decreases n,
{
    if n >= 10 {
        lemma_decimal_len(n / 10);
    }
}

/// Different numbers differ in decimal.
pub proof fn law_decimal(m: nat, n: nat)
    requires
        decimal(m) == decimal(n),
    ensures
        m == n,
    decreases m,
{
    lemma_decimal_len(m);
    lemma_decimal_len(n);
    if m < 10 || n < 10 {
        if m < 10 && n < 10 {
            assert(decimal(m)[0] == (ZERO + m) as u8);
            assert(decimal(n)[0] == (ZERO + n) as u8);
        }
    } else {
        assert(decimal(m).drop_last() =~= decimal(m / 10));
        assert(decimal(n).drop_last() =~= decimal(n / 10));
        assert(decimal(m).last() == (ZERO + m % 10) as u8);
        assert(decimal(n).last() == (ZERO + n % 10) as u8);
        law_decimal(m / 10, n / 10);
    }
}

/// The last byte of a number in decimal is a digit.
pub proof fn law_decimal_digit(n: nat)
    ensures
        decimal(n).len() > 0,
        ZERO <= decimal(n).last() <= ZERO + 9,
        !decimal(n).contains(SLASH),
    decreases n,
{
    lemma_decimal_len(n);
    if n >= 10 {
        law_decimal_digit(n / 10);
        assert forall|j: int| 0 <= j < decimal(n).len() implies decimal(n)[j] != SLASH by {
            if j < decimal(n).len() - 1 {
                assert(decimal(n)[j] == decimal(n / 10)[j]);
            }
        }
    }
}

/// Digit by digit: behind the byte for `0` stands the decimal place of the
/// number, the highest place first, and there are as many places as the number
/// needs.
pub proof fn law_decimal_places(n: nat)
    ensures
        ({
            let len = decimal(n).len();
            &&& len > 0
            &&& forall|j: int|
                0 <= j < len ==> #[trigger] decimal(n)[j] == 48 + (n as int) / pow(
                    10,
                    (len - 1 - j) as nat,
                ) % 10
            &&& n < pow(10, len)
            &&& len > 1 ==> n >= pow(10, (len - 1) as nat)
        }),
    decreases n,
{
    reveal(pow);
    lemma_decimal_len(n);
    if n < 10 {
        assert(pow(10, 0) == 1);
        assert(pow(10, 1) == 10 * pow(10, 0));
        assert(decimal(n) == seq![(ZERO + n) as u8]);
        assert forall|j: int| 0 <= j < decimal(n).len() implies #[trigger] decimal(n)[j] == 48 + (
        n as int) / pow(10, (decimal(n).len() - 1 - j) as nat) % 10 by {
            assert(j == 0);
            assert((n as int) / pow(10, 0) == n);
        }
    } else {
        let m = n / 10;
        let len = decimal(n).len();
        law_decimal_places(m);
        assert(decimal(m).len() == len - 1);
        assert(pow(10, len) == 10 * pow(10, (len - 1) as nat));
        assert(pow(10, (len - 1) as nat) == 10 * pow(10, (len - 2) as nat));
        if len == 2 {
            assert(pow(10, 0) == 1);
        }
        assert forall|j: int| 0 <= j < len implies #[trigger] decimal(n)[j] == 48 + (n as int)
            / pow(10, (len - 1 - j) as nat) % 10 by {
            if j == len - 1 {
                assert(pow(10, 0) == 1);
            } else {
                let k = (len - 2 - j) as nat;
                assert(decimal(n)[j] == decimal(m)[j]);
                assert(decimal(m)[j] == 48 + (m as int) / pow(10, (len - 1 - 1 - j) as nat) % 10);
                assert(pow(10, k + 1) == 10 * pow(10, k));
                lemma_pow_positive(10, k);
                lemma_div_denominator(n as int, 10, pow(10, k));
            }
        }
    }
}

/// Whether `name` can be the name of a file: it is not empty, holds no slash,
/// and is neither `.` nor `..`.
pub open spec fn is_file_name(name: Seq<u8>) -> bool {
    &&& name.len() > 0
    &&& !name.contains(SLASH)
    &&& name != seq![DOT]
    &&& name != seq![DOT, DOT]
}

/// A name stays when the tail of a path is stripped.
proof fn lemma_strip_name(dir: Seq<u8>, name: Seq<u8>)
    requires
        dir.len() == 0 || dir.last() == SLASH,
        is_file_name(name),
    ensures
        strip_tail(dir + name) == dir + name,
        file_name(dir + name) == Some(name),
        parent(dir + name) == strip_tail(dir),
{
    let s = dir + name;
    let n = name.len() as int;
    assert(s.last() == name[n - 1]);
    assert(name[n - 1] != SLASH);
    if name[n - 1] == DOT {
        if n == 1 {
            assert(name =~= seq![DOT]);
        } else {
            assert(s[s.len() - 2] == name[n - 2]);
            assert(name[n - 2] != SLASH);
        }
    }
    lemma_segment_of(dir, name);
    assert(s.skip(dir.len() as int) =~= name);
    assert(s.take(dir.len() as int) =~= dir);
    if n <= 2 && forall|i: int| 0 <= i < name.len() ==> name[i] == DOT {
        if n == 1 {
            assert(name =~= seq![DOT]);
        } else {
            assert(name =~= seq![DOT, DOT]);
        }
    }
}

/// The last component of a path is its file name, and what stands before it is
/// its directory: `name` has none, `/name` lies in the root, and `dir/name` in
/// `dir`.
pub proof fn law_file_in_dir(dir: Seq<u8>, name: Seq<u8>)
    requires
        name.len() > 0,
        !name.contains(47),
        name != seq![46u8],
        name != seq![46u8, 46u8],
    ensures
        file_name(name) == Some(name),
        parent(name) == Seq::<u8>::empty(),
        file_name(seq![47u8] + name) == Some(name),
        parent(seq![47u8] + name) == seq![47u8],
        file_name(dir + seq![47u8] + name) == Some(name),
        dir.len() > 0 && dir.last() != 47 && !(dir.len() > 1 && dir.last() == 46 && dir[dir.len()
            - 2] == 47) ==> parent(dir + seq![47u8] + name) == dir,
{
    let none = Seq::<u8>::empty();
    assert(none + name =~= name);
    lemma_strip_name(none, name);
    lemma_strip_name(seq![47u8], name);
    lemma_strip_name(dir + seq![47u8], name);
    assert((dir + seq![47u8]).drop_last() =~= dir);
    if dir.len() > 0 {
        assert(strip_tail(dir + seq![47u8]) == strip_tail(dir));
    }
}

/// Doubled slashes and `.` components before the last component do not matter.
pub proof fn law_directory_stripped(dir: Seq<u8>, name: Seq<u8>)
    requires
        name.len() > 0,
        !name.contains(47),
        name != seq![46u8],
        name != seq![46u8, 46u8],
    ensures
        parent(dir + seq![47u8, 47u8] + name) == parent(dir + seq![47u8] + name),
        parent(dir + seq![47u8, 46u8, 47u8] + name) == parent(dir + seq![47u8] + name),
        file_name(dir + seq![47u8, 47u8] + name) == Some(name),
        file_name(dir + seq![47u8, 46u8, 47u8] + name) == Some(name),
{
    let one = dir + seq![47u8];
    let two = dir + seq![47u8, 47u8];
    let dot = dir + seq![47u8, 46u8, 47u8];
    lemma_strip_name(one, name);
    lemma_strip_name(two, name);
    lemma_strip_name(dot, name);
    assert(two.drop_last() =~= one);
    assert(dot.drop_last().drop_last() =~= one);
    reveal_with_fuel(strip_tail, 3);
}

/// A slash or a `.` component at the end of a path does not matter.
pub proof fn law_tail_stripped(path: Seq<u8>)
    requires
        path.len() > 0,
    ensures
        file_name(path + seq![47u8]) == file_name(path),
        parent(path + seq![47u8]) == parent(path),
        file_name(path + seq![47u8, 46u8]) == file_name(path),
        parent(path + seq![47u8, 46u8]) == parent(path),
{
    let slash = path + seq![47u8];
    let dot = path + seq![47u8, 46u8];
    assert(slash.drop_last() =~= path);
    assert(dot.drop_last() =~= slash);
    assert(strip_tail(slash) == strip_tail(path));
    assert(strip_tail(dot) == strip_tail(slash));
}

/// The empty path, the root, `.` and every path that ends in `..` have no file
/// name.
pub proof fn law_no_file_name(dir: Seq<u8>)
    ensures
        file_name(Seq::<u8>::empty()) is None,
        file_name(seq![47u8]) is None,
        file_name(seq![47u8, 46u8]) is None,
        file_name(seq![46u8]) is None,
        file_name(seq![46u8, 46u8]) is None,
        file_name(dir + seq![47u8, 46u8, 46u8]) is None,
{
    let none = Seq::<u8>::empty();
    let dots = seq![46u8, 46u8];
    let s = dir + seq![47u8, 46u8, 46u8];
    let start = dir + seq![47u8];
    assert(strip_tail(none) == none);
    assert(none.skip(0) =~= none);
    assert(strip_tail(seq![47u8]) == seq![47u8]);
    assert(seq![47u8].skip(1) =~= none);
    assert(seq![47u8, 46u8].drop_last() =~= seq![47u8]);
    assert(none + seq![46u8] =~= seq![46u8]);
    lemma_segment_of(none, seq![46u8]);
    assert(seq![46u8].skip(0) =~= seq![46u8]);
    assert(none + dots =~= dots);
    lemma_segment_of(none, dots);
    assert(dots.skip(0) =~= dots);
    assert(start + dots =~= s);
    assert(strip_tail(s) == s);
    lemma_segment_of(start, dots);
    assert(s.skip(start.len() as int) =~= dots);
}

/// A name is joined to a directory with one slash between them, and without one
/// where there is no directory or it ends in a slash.
pub proof fn law_joined_bytes(dir: Seq<u8>, name: Seq<u8>)
    ensures
        joined(Seq::<u8>::empty(), name) == name,
        joined(dir + seq![47u8], name) == dir + seq![47u8] + name,
        dir.len() > 0 && dir.last() != 47 ==> joined(dir, name) == dir + seq![47u8] + name,
{
    assert(Seq::<u8>::empty() + name =~= name);
    assert(dir.push(SLASH) =~= dir + seq![47u8]);
}

} // verus!
