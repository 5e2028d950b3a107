use vstd::prelude::*;

verus! {

/// How the stored value of a key is compared with a target.
#[derive(Debug, Clone, Copy, PartialEq, Eq, Structural)]
pub enum CompareOp {
    Equal,
    Greater,
    Less,
    NotEqual,
}

/// Lexicographic order on byte strings: `a` sorts strictly before `b`.
pub open spec fn bytes_lt(a: Seq<u8>, b: Seq<u8>) -> bool
    decreases a.len(),
{
    if b.len() == 0 {
        false
    } else if a.len() == 0 {
        true
    } else if a[0] != b[0] {
        a[0] < b[0]
    } else {
        bytes_lt(a.drop_first(), b.drop_first())
    }
}

/// The outcome of comparing a stored value (`None`: the key is absent)
/// against a target (`None`: the key must not exist). Absence orders below
/// every present value, and two absences count as equal.
pub open spec fn compare_spec(cmp: CompareOp, actual: Option<Seq<u8>>, target: Option<Seq<u8>>) -> bool {
    match (actual, target) {
        (Some(v), Some(t)) => match cmp {
            CompareOp::Equal => v == t,
            CompareOp::Greater => bytes_lt(t, v),
            CompareOp::Less => bytes_lt(v, t),
            CompareOp::NotEqual => v != t,
        },
        (Some(_), None) => cmp == CompareOp::Greater || cmp == CompareOp::NotEqual,
        (None, Some(_)) => cmp == CompareOp::Less || cmp == CompareOp::NotEqual,
        (None, None) => cmp == CompareOp::Equal,
    }
}

/// Against a present target `t`, `Equal` holds of `t` itself, of no other
/// value, and not of an absent key.
pub proof fn lemma_equal_present_target(t: Seq<u8>, u: Seq<u8>)
    ensures
        compare_spec(CompareOp::Equal, Some(t), Some(t)),
        u != t ==> !compare_spec(CompareOp::Equal, Some(u), Some(t)),
        !compare_spec(CompareOp::Equal, None, Some(t)),
{
}

/// Against an absent target (the key must not exist): `Equal` holds of an
/// absent key only; `NotEqual` and `Greater` hold of any present value and
/// not of an absent key; `Less` holds of nothing.
pub proof fn lemma_absent_target(v: Seq<u8>)
    ensures
        compare_spec(CompareOp::Equal, None, None),
        !compare_spec(CompareOp::Equal, Some(v), None),
        !compare_spec(CompareOp::NotEqual, None, None),
        compare_spec(CompareOp::NotEqual, Some(v), None),
        !compare_spec(CompareOp::Greater, None, None),
        compare_spec(CompareOp::Greater, Some(v), None),
        !compare_spec(CompareOp::Less, None, None),
        !compare_spec(CompareOp::Less, Some(v), None),
{
}

pub open spec fn opt_bytes(o: Option<Vec<u8>>) -> Option<Seq<u8>> {
    match o {
        Some(v) => Some(v@),
        None => None,
    }
}

/// The abstract value of a [`Compare`].
pub struct CompareView {
    pub key: Seq<u8>,
    pub cmp: CompareOp,
    pub target: Option<Seq<u8>>,
}

/// A predicate on the current value of `key`.
#[derive(Debug, Clone, PartialEq)]
pub struct Compare {
    pub key: Vec<u8>,
    pub cmp: CompareOp,
    /// None means the key does not exist.
    pub target: Option<Vec<u8>>,
}

impl View for Compare {
    type V = CompareView;

    open spec fn view(&self) -> CompareView {
        CompareView { key: self.key@, cmp: self.cmp, target: opt_bytes(self.target) }
    }
}

/// Whether two byte strings hold the same bytes.
fn bytes_eq(a: &Vec<u8>, b: &Vec<u8>) -> (r: bool)
    ensures
        r == (a@ == b@),
{
    if a.len() != b.len() {
        return false;
    }
    let mut i: usize = 0;
    while i < a.len()
        invariant
            a@.len() == b@.len(),
            0 <= i <= a@.len(),
            a@.subrange(0, i as int) == b@.subrange(0, i as int),
        decreases a@.len() - i,
    {
        if a[i] != b[i] {
            assert(a@[i as int] != b@[i as int]);
            return false;
        }
        assert(a@.subrange(0, i + 1) =~= a@.subrange(0, i as int).push(a@[i as int]));
        assert(b@.subrange(0, i + 1) =~= b@.subrange(0, i as int).push(b@[i as int]));
        i += 1;
    }
    assert(a@ =~= a@.subrange(0, i as int));
    assert(b@ =~= b@.subrange(0, i as int));
    true
}

/// Whether `a` sorts strictly before `b`, byte by byte.
fn bytes_less(a: &Vec<u8>, b: &Vec<u8>) -> (r: bool)
    ensures
        r == bytes_lt(a@, b@),
{
    let mut i: usize = 0;
    assert(a@.skip(0) =~= a@ && b@.skip(0) =~= b@);
    while i < a.len() && i < b.len()
        invariant
            0 <= i <= a@.len(),
            i <= b@.len(),
            bytes_lt(a@, b@) == bytes_lt(a@.skip(i as int), b@.skip(i as int)),
        decreases a@.len() - i,
    {
        let (x, y) = (a[i], b[i]);
        assert(a@.skip(i as int)[0] == x && b@.skip(i as int)[0] == y);
        if x != y {
            return x < y;
        }
        assert(a@.skip(i as int).drop_first() =~= a@.skip(i + 1));
        assert(b@.skip(i as int).drop_first() =~= b@.skip(i + 1));
        i += 1;
    }
    assert(a@.skip(i as int).len() == a@.len() - i && b@.skip(i as int).len() == b@.len() - i);
    i < b.len()
}

impl Compare {
    pub fn new(key: Vec<u8>, cmp: CompareOp, target: Option<Vec<u8>>) -> (r: Self)
        ensures
            r.key == key,
            r.cmp == cmp,
            r.target == target,
    {
        Self { key, cmp, target }
    }

    pub fn with_value(key: Vec<u8>, cmp: CompareOp, target: Vec<u8>) -> (r: Self)
        ensures
            r.key == key,
            r.cmp == cmp,
            r.target == Some(target),
    {
        Self::new(key, cmp, Some(target))
    }

    pub fn with_value_not_exists(key: Vec<u8>, cmp: CompareOp) -> (r: Self)
        ensures
            r.key == key,
            r.cmp == cmp,
            r.target is None,
    {
        Self::new(key, cmp, None)
    }

    /// Evaluates the predicate against the current value of the key
    /// (`None` when the key is absent).
    pub fn compare_value(&self, value: Option<&Vec<u8>>) -> (r: bool)
        ensures
            r == compare_spec(
                self.cmp,
                match value {
                    Some(v) => Some(v@),
                    None => None,
                },
                self@.target,
            ),
    {
        match (value, &self.target) {
            (Some(value), Some(target)) => match self.cmp {
                CompareOp::Equal => bytes_eq(value, target),
                CompareOp::Greater => bytes_less(target, value),
                CompareOp::Less => bytes_less(value, target),
                CompareOp::NotEqual => !bytes_eq(value, target),
            },
            (Some(_), None) => match self.cmp {
                CompareOp::Equal => false,
                CompareOp::Greater => true,
                CompareOp::Less => false,
                CompareOp::NotEqual => true,
            },
            (None, Some(_)) => match self.cmp {
                CompareOp::Equal => false,
                CompareOp::Greater => false,
                CompareOp::Less => true,
                CompareOp::NotEqual => true,
            },
            (None, None) => match self.cmp {
                CompareOp::Equal => true,
                CompareOp::Greater => false,
                CompareOp::Less => false,
                CompareOp::NotEqual => false,
            },
        }
    }
}

} // verus!
