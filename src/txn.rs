use vstd::prelude::*;

use crate::compare::{Compare, CompareOp};
use crate::request::{empty_request, request_concat, TxnOp, TxnOpView, TxnRequest, TxnRequestView};

verus! {

/// Why a builder call was refused: each stage is set at most once, in the
/// order `when`, `and_then`, `or_else`.
#[derive(Debug, Clone, Copy, PartialEq, Eq, Structural)]
pub enum TxnBuildError {
    WhenTwice,
    WhenAfterAndThen,
    WhenAfterOrElse,
    AndThenTwice,
    AndThenAfterOrElse,
    OrElseTwice,
}

/// The abstract value of a [`Txn`].
pub struct TxnView {
    pub req: TxnRequestView,
    pub c_when: bool,
    pub c_then: bool,
    pub c_else: bool,
}

/// A transaction under construction: the request, and which of the three
/// stages have been set. A half-built `Txn` is a value that each builder call
/// consumes; it is not meant to be shared between concurrent mutators.
#[derive(Debug, Clone, Default, PartialEq)]
pub struct Txn {
    pub req: TxnRequest,
    pub c_when: bool,
    pub c_then: bool,
    pub c_else: bool,
}

impl View for Txn {
    type V = TxnView;

    open spec fn view(&self) -> TxnView {
        TxnView { req: self.req@, c_when: self.c_when, c_then: self.c_then, c_else: self.c_else }
    }
}

/// The empty transaction: no conditions, no operations, no stage set.
pub open spec fn empty_txn() -> TxnView {
    TxnView { req: empty_request(), c_when: false, c_then: false, c_else: false }
}

/// `a` and `b` as one transaction: the stage flags of either, and each list
/// of `a` followed by the same list of `b`.
pub open spec fn merge_spec(a: TxnView, b: TxnView) -> TxnView {
    TxnView {
        req: request_concat(a.req, b.req),
        c_when: a.c_when || b.c_when,
        c_then: a.c_then || b.c_then,
        c_else: a.c_else || b.c_else,
    }
}

/// Left fold of [`merge_spec`] over `s`, starting from the empty transaction.
pub open spec fn merge_all_spec(s: Seq<TxnView>) -> TxnView
    decreases s.len(),
{
    if s.len() == 0 {
        empty_txn()
    } else {
        merge_spec(merge_all_spec(s.drop_last()), s.last())
    }
}

pub open spec fn txns_view(s: Seq<Txn>) -> Seq<TxnView> {
    s.map_values(|t: Txn| t@)
}

pub open spec fn max3(a: int, b: int, c: int) -> int {
    let ab = if a >= b { a } else { b };
    if ab >= c { ab } else { c }
}

/// The empty transaction is a left and a right identity of merging.
pub proof fn lemma_merge_identity(a: TxnView)
    ensures
        merge_spec(empty_txn(), a) == a,
        merge_spec(a, empty_txn()) == a,
{
    assert(merge_spec(empty_txn(), a).req.compare =~= a.req.compare);
    assert(merge_spec(empty_txn(), a).req.success =~= a.req.success);
    assert(merge_spec(empty_txn(), a).req.failure =~= a.req.failure);
    assert(merge_spec(a, empty_txn()).req.compare =~= a.req.compare);
    assert(merge_spec(a, empty_txn()).req.success =~= a.req.success);
    assert(merge_spec(a, empty_txn()).req.failure =~= a.req.failure);
}

/// Merging is associative.
pub proof fn lemma_merge_associative(a: TxnView, b: TxnView, c: TxnView)
    ensures
        merge_spec(merge_spec(a, b), c) == merge_spec(a, merge_spec(b, c)),
{
    assert(a.req.compare + b.req.compare + c.req.compare =~= a.req.compare + (b.req.compare
        + c.req.compare));
    assert(a.req.success + b.req.success + c.req.success =~= a.req.success + (b.req.success
        + c.req.success));
    assert(a.req.failure + b.req.failure + c.req.failure =~= a.req.failure + (b.req.failure
        + c.req.failure));
}

/// A stage is set in a merge exactly when it is set in either operand.
pub proof fn lemma_merge_flag_union(a: TxnView, b: TxnView)
    ensures
        merge_spec(a, b).c_when == (a.c_when || b.c_when),
        merge_spec(a, b).c_then == (a.c_then || b.c_then),
        merge_spec(a, b).c_else == (a.c_else || b.c_else),
{
}

/// Merging a sequence of transactions concatenates their conditions, their
/// success operations and their failure operations in input order, so each
/// length is the sum of the inputs' lengths; a stage is set when it is set in
/// some input; and merging nothing gives the empty transaction.
pub proof fn lemma_merge_all_concat(s: Seq<TxnView>)
    ensures
        merge_all_spec(s).req.compare == s.map_values(|t: TxnView| t.req.compare).flatten(),
        merge_all_spec(s).req.success == s.map_values(|t: TxnView| t.req.success).flatten(),
        merge_all_spec(s).req.failure == s.map_values(|t: TxnView| t.req.failure).flatten(),
        merge_all_spec(s).req.compare.len() == s.map_values(|t: TxnView| t.req.compare.len()).fold_left(0nat, |acc: nat, n: nat| acc + n),
        merge_all_spec(s).req.success.len() == s.map_values(|t: TxnView| t.req.success.len()).fold_left(0nat, |acc: nat, n: nat| acc + n),
        merge_all_spec(s).req.failure.len() == s.map_values(|t: TxnView| t.req.failure.len()).fold_left(0nat, |acc: nat, n: nat| acc + n),
        merge_all_spec(s).c_when == exists|i: int| 0 <= i < s.len() && (#[trigger] s[i]).c_when,
        merge_all_spec(s).c_then == exists|i: int| 0 <= i < s.len() && (#[trigger] s[i]).c_then,
        merge_all_spec(s).c_else == exists|i: int| 0 <= i < s.len() && (#[trigger] s[i]).c_else,
        s.len() == 0 ==> merge_all_spec(s) == empty_txn(),
    decreases s.len(),
{
    let cs = s.map_values(|t: TxnView| t.req.compare);
    let ss = s.map_values(|t: TxnView| t.req.success);
    let fs = s.map_values(|t: TxnView| t.req.failure);
    let cl = s.map_values(|t: TxnView| t.req.compare.len());
    let sl = s.map_values(|t: TxnView| t.req.success.len());
    let fl = s.map_values(|t: TxnView| t.req.failure.len());
    cs.lemma_flatten_and_flatten_alt_are_equivalent();
    ss.lemma_flatten_and_flatten_alt_are_equivalent();
    fs.lemma_flatten_and_flatten_alt_are_equivalent();
    if s.len() == 0 {
        assert(merge_all_spec(s) == empty_txn());
    } else {
        let p = s.drop_last();
        lemma_merge_all_concat(p);
        let pc = p.map_values(|t: TxnView| t.req.compare);
        let ps = p.map_values(|t: TxnView| t.req.success);
        let pf = p.map_values(|t: TxnView| t.req.failure);
        pc.lemma_flatten_and_flatten_alt_are_equivalent();
        ps.lemma_flatten_and_flatten_alt_are_equivalent();
        pf.lemma_flatten_and_flatten_alt_are_equivalent();
        assert(cs.drop_last() =~= pc);
        assert(ss.drop_last() =~= ps);
        assert(fs.drop_last() =~= pf);
        assert(cl.drop_last() =~= p.map_values(|t: TxnView| t.req.compare.len()));
        assert(sl.drop_last() =~= p.map_values(|t: TxnView| t.req.success.len()));
        assert(fl.drop_last() =~= p.map_values(|t: TxnView| t.req.failure.len()));
        let last = s.len() - 1;
        if s.last().c_when {
            assert(s[last].c_when);
        }
        if s.last().c_then {
            assert(s[last].c_then);
        }
        if s.last().c_else {
            assert(s[last].c_else);
        }
        assert forall|i: int| 0 <= i < p.len() implies (p[i] == #[trigger] s[i]) by {}
        if merge_all_spec(s).c_when != exists|i: int| 0 <= i < s.len() && (#[trigger] s[i]).c_when {
            let i = choose|i: int| 0 <= i < s.len() && (#[trigger] s[i]).c_when;
            assert(i == last || p[i].c_when);
        }
        if merge_all_spec(s).c_then != exists|i: int| 0 <= i < s.len() && (#[trigger] s[i]).c_then {
            let i = choose|i: int| 0 <= i < s.len() && (#[trigger] s[i]).c_then;
            assert(i == last || p[i].c_then);
        }
        if merge_all_spec(s).c_else != exists|i: int| 0 <= i < s.len() && (#[trigger] s[i]).c_else {
            let i = choose|i: int| 0 <= i < s.len() && (#[trigger] s[i]).c_else;
            assert(i == last || p[i].c_else);
        }
    }
}

impl Txn {
    /// The wrapped request.
    pub fn req(&self) -> (r: &TxnRequest)
        ensures
            *r == self.req,
    {
        &self.req
    }

    /// Merges all `values` into one transaction, in order; no values give the
    /// empty transaction.
    pub fn merge_all(values: Vec<Txn>) -> (r: Self)
        ensures
            r@ == merge_all_spec(txns_view(values@)),
    {
        let ghost all = values@;
        let mut rest = values;
        let mut acc = Txn::new();
        let ghost done: int = 0;
        assert(txns_view(all.take(0)) =~= Seq::<TxnView>::empty());
        while rest.len() > 0
            invariant
                0 <= done <= all.len(),
                rest@ == all.skip(done),
                acc@ == merge_all_spec(txns_view(all.take(done))),
            decreases rest@.len(),
        {
            let t = rest.remove(0);
            proof {
                assert(txns_view(all.take(done + 1)).drop_last() =~= txns_view(all.take(done)));
                assert(all.skip(done).remove(0) =~= all.skip(done + 1));
                done = done + 1;
            }
            acc = acc.merge(t);
        }
        assert(all.take(done) =~= all);
        acc
    }

    /// This transaction followed by `other`: the stage flags of either, and
    /// each list of `self` followed by the same list of `other`.
    pub fn merge(self, other: Txn) -> (r: Self)
        ensures
            r@ == merge_spec(self@, other@),
            r.req.compare@ == self.req.compare@ + other.req.compare@,
            r.req.success@ == self.req.success@ + other.req.success@,
            r.req.failure@ == self.req.failure@ + other.req.failure@,
            r.c_when == (self.c_when || other.c_when),
            r.c_then == (self.c_then || other.c_then),
            r.c_else == (self.c_else || other.c_else),
    {
        let mut s = self;
        s.c_when = s.c_when || other.c_when;
        s.c_then = s.c_then || other.c_then;
        s.c_else = s.c_else || other.c_else;
        s.req.extend(other.req);
        s
    }

    /// The empty transaction.
    pub fn new() -> (r: Self)
        ensures
            r@ == empty_txn(),
            r.req.compare@.len() == 0,
            r.req.success@.len() == 0,
            r.req.failure@.len() == 0,
            !r.c_when && !r.c_then && !r.c_else,
    {
        Txn { req: TxnRequest::empty(), c_when: false, c_then: false, c_else: false }
    }

    /// Puts `value` at `key` if the key does not exist; otherwise gets it.
    pub fn put_if_not_exists(key: Vec<u8>, value: Vec<u8>) -> (r: Self)
        ensures
            r.req.compare@.len() == 1,
            r.req.compare@[0]@.key == key@,
            r.req.compare@[0].cmp == CompareOp::Equal,
            r.req.compare@[0].target is None,
            r.req.success@.len() == 1,
            r.req.success@[0]@ == TxnOpView::Put(key@, value@),
            r.req.failure@.len() == 1,
            r.req.failure@[0]@ == TxnOpView::Get(key@),
            r.c_when && r.c_then && r.c_else,
    {
        Self::new().when(
            vec![Compare::with_value_not_exists(key.clone(), CompareOp::Equal)],
        ).unwrap().and_then(vec![TxnOp::Put(key.clone(), value)]).unwrap().or_else(
            vec![TxnOp::Get(key)],
        ).unwrap()
    }

    /// Puts `value` at `key` if the key holds `expect`; otherwise gets it.
    pub fn compare_and_put(key: Vec<u8>, expect: Vec<u8>, value: Vec<u8>) -> (r: Self)
        ensures
            r.req.compare@.len() == 1,
            r.req.compare@[0]@.key == key@,
            r.req.compare@[0].cmp == CompareOp::Equal,
            r.req.compare@[0]@.target == Some(expect@),
            r.req.success@.len() == 1,
            r.req.success@[0]@ == TxnOpView::Put(key@, value@),
            r.req.failure@.len() == 1,
            r.req.failure@[0]@ == TxnOpView::Get(key@),
            r.c_when && r.c_then && r.c_else,
    {
        Self::new().when(
            vec![Compare::with_value(key.clone(), CompareOp::Equal, expect)],
        ).unwrap().and_then(vec![TxnOp::Put(key.clone(), value)]).unwrap().or_else(
            vec![TxnOp::Get(key)],
        ).unwrap()
    }

    /// Sets the conditions. If all of them hold, the operations given to
    /// `and_then` run; otherwise those given to `or_else`. Refused once
    /// `when`, `and_then` or `or_else` has been called.
    pub fn when(self, compares: Vec<Compare>) -> (r: Result<Self, TxnBuildError>)
        ensures
            self.c_when ==> r == Err::<Self, TxnBuildError>(TxnBuildError::WhenTwice),
            !self.c_when && self.c_then ==> r == Err::<Self, TxnBuildError>(
                TxnBuildError::WhenAfterAndThen,
            ),
            !self.c_when && !self.c_then && self.c_else ==> r == Err::<Self, TxnBuildError>(
                TxnBuildError::WhenAfterOrElse,
            ),
            !self.c_when && !self.c_then && !self.c_else ==> r == Ok::<Self, TxnBuildError>(
                (Txn {
                    req: (TxnRequest {
                        compare: compares,
                        success: self.req.success,
                        failure: self.req.failure,
                    }),
                    c_when: true,
                    c_then: false,
                    c_else: false,
                }),
            ),
    {
        if self.c_when {
            return Err(TxnBuildError::WhenTwice);
        }
        if self.c_then {
            return Err(TxnBuildError::WhenAfterAndThen);
        }
        if self.c_else {
            return Err(TxnBuildError::WhenAfterOrElse);
        }
        let mut s = self;
        s.c_when = true;
        s.req.compare = compares;
        Ok(s)
    }

    /// Sets the operations that run when all conditions hold. Refused once
    /// `and_then` or `or_else` has been called.
    pub fn and_then(self, operations: Vec<TxnOp>) -> (r: Result<Self, TxnBuildError>)
        ensures
            self.c_then ==> r == Err::<Self, TxnBuildError>(TxnBuildError::AndThenTwice),
            !self.c_then && self.c_else ==> r == Err::<Self, TxnBuildError>(
                TxnBuildError::AndThenAfterOrElse,
            ),
            !self.c_then && !self.c_else ==> r == Ok::<Self, TxnBuildError>(
                (Txn {
                    req: (TxnRequest {
                        compare: self.req.compare,
                        success: operations,
                        failure: self.req.failure,
                    }),
                    c_when: self.c_when,
                    c_then: true,
                    c_else: false,
                }),
            ),
    {
        if self.c_then {
            return Err(TxnBuildError::AndThenTwice);
        }
        if self.c_else {
            return Err(TxnBuildError::AndThenAfterOrElse);
        }
        let mut s = self;
        s.c_then = true;
        s.req.success = operations;
        Ok(s)
    }

    /// Sets the operations that run when some condition fails. Refused once
    /// `or_else` has been called.
    pub fn or_else(self, operations: Vec<TxnOp>) -> (r: Result<Self, TxnBuildError>)
        ensures
            self.c_else ==> r == Err::<Self, TxnBuildError>(TxnBuildError::OrElseTwice),
            !self.c_else ==> r == Ok::<Self, TxnBuildError>(
                (Txn {
                    req: (TxnRequest {
                        compare: self.req.compare,
                        success: self.req.success,
                        failure: operations,
                    }),
                    c_when: self.c_when,
                    c_then: self.c_then,
                    c_else: true,
                }),
            ),
    {
        if self.c_else {
            return Err(TxnBuildError::OrElseTwice);
        }
        let mut s = self;
        s.c_else = true;
        s.req.failure = operations;
        Ok(s)
    }

    /// The length of the longest of the three lists: conditions, success
    /// operations, failure operations.
    pub fn max_operations(&self) -> (r: usize)
        ensures
            r as int == max3(
                self.req.compare@.len() as int,
                self.req.success@.len() as int,
                self.req.failure@.len() as int,
            ),
    {
        let c = self.req.compare.len();
        let s = self.req.success.len();
        let f = self.req.failure.len();
        let opc = if c >= s { c } else { s };
        if opc >= f { opc } else { f }
    }
}

impl From<Txn> for TxnRequest {
    /// The request, without the stage flags.
    fn from(txn: Txn) -> (r: TxnRequest)
        ensures
            r == txn.req,
    {
        txn.req
    }
}

impl vstd::std_specs::convert::FromSpecImpl<Txn> for TxnRequest {
    open spec fn obeys_from_spec() -> bool {
        true
    }

    open spec fn from_spec(txn: Txn) -> TxnRequest {
        txn.req
    }
}

} // verus!
