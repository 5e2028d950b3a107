use vstd::prelude::*;

use crate::compare::{Compare, CompareView};

verus! {

/// The abstract value of a [`TxnOp`].
pub enum TxnOpView {
    Put(Seq<u8>, Seq<u8>),
    Get(Seq<u8>),
    Delete(Seq<u8>),
}

/// One operation of a transaction branch.
#[derive(Debug, Clone, PartialEq)]
pub enum TxnOp {
    Put(Vec<u8>, Vec<u8>),
    Get(Vec<u8>),
    Delete(Vec<u8>),
}

impl View for TxnOp {
    type V = TxnOpView;

    open spec fn view(&self) -> TxnOpView {
        match self {
            TxnOp::Put(k, v) => TxnOpView::Put(k@, v@),
            TxnOp::Get(k) => TxnOpView::Get(k@),
            TxnOp::Delete(k) => TxnOpView::Delete(k@),
        }
    }
}

pub open spec fn compares_view(s: Seq<Compare>) -> Seq<CompareView> {
    s.map_values(|c: Compare| c@)
}

pub open spec fn ops_view(s: Seq<TxnOp>) -> Seq<TxnOpView> {
    s.map_values(|o: TxnOp| o@)
}

/// The abstract value of a [`TxnRequest`].
pub struct TxnRequestView {
    pub compare: Seq<CompareView>,
    pub success: Seq<TxnOpView>,
    pub failure: Seq<TxnOpView>,
}

/// Conditions, the operations to run when all of them hold, and the
/// operations to run otherwise. Order within each list is kept.
#[derive(Debug, Clone, Default, PartialEq)]
pub struct TxnRequest {
    pub compare: Vec<Compare>,
    pub success: Vec<TxnOp>,
    pub failure: Vec<TxnOp>,
}

impl View for TxnRequest {
    type V = TxnRequestView;

    open spec fn view(&self) -> TxnRequestView {
        TxnRequestView {
            compare: compares_view(self.compare@),
            success: ops_view(self.success@),
            failure: ops_view(self.failure@),
        }
    }
}

/// Appends `b`'s lists to `a`'s, `a`'s entries first.
pub open spec fn request_concat(a: TxnRequestView, b: TxnRequestView) -> TxnRequestView {
    TxnRequestView {
        compare: a.compare + b.compare,
        success: a.success + b.success,
        failure: a.failure + b.failure,
    }
}

pub open spec fn empty_request() -> TxnRequestView {
    TxnRequestView { compare: Seq::empty(), success: Seq::empty(), failure: Seq::empty() }
}

impl TxnRequest {
    pub fn empty() -> (r: Self)
        ensures
            r@ == empty_request(),
            r.compare@.len() == 0 && r.success@.len() == 0 && r.failure@.len() == 0,
    {
        let r = TxnRequest { compare: Vec::new(), success: Vec::new(), failure: Vec::new() };
        assert(r@.compare =~= Seq::<CompareView>::empty());
        assert(r@.success =~= Seq::<TxnOpView>::empty());
        assert(r@.failure =~= Seq::<TxnOpView>::empty());
        r
    }

    /// Appends `other`'s conditions and operations after this request's own.
    pub fn extend(&mut self, other: TxnRequest)
        ensures
            final(self).compare@ == old(self).compare@ + other.compare@,
            final(self).success@ == old(self).success@ + other.success@,
            final(self).failure@ == old(self).failure@ + other.failure@,
            final(self)@ == request_concat(old(self)@, other@),
    {
        let mut other = other;
        let ghost o = other;
        self.compare.append(&mut other.compare);
        self.success.append(&mut other.success);
        self.failure.append(&mut other.failure);
        assert(compares_view(self.compare@) =~= compares_view(old(self).compare@) + compares_view(o.compare@));
        assert(ops_view(self.success@) =~= ops_view(old(self).success@) + ops_view(o.success@));
        assert(ops_view(self.failure@) =~= ops_view(old(self).failure@) + ops_view(o.failure@));
    }
}

/// The backend's reply to one operation. The payload is the backend's own
/// encoding of its response and is not read here.
#[derive(Debug, Clone, PartialEq)]
pub enum TxnOpResponse {
    ResponsePut(Vec<u8>),
    ResponseGet(Vec<u8>),
    ResponseDelete(Vec<u8>),
}

/// A response of the right kind for the operation.
pub open spec fn answers(r: TxnOpResponse, op: TxnOp) -> bool {
    match r {
        TxnOpResponse::ResponsePut(_) => op is Put,
        TxnOpResponse::ResponseGet(_) => op is Get,
        TxnOpResponse::ResponseDelete(_) => op is Delete,
    }
}

impl TxnOpResponse {
    /// Whether this response is of the kind that `op` produces.
    pub fn answers(&self, op: &TxnOp) -> (r: bool)
        ensures
            r == answers(*self, *op),
    {
        match (self, op) {
            (TxnOpResponse::ResponsePut(_), TxnOp::Put(_, _)) => true,
            (TxnOpResponse::ResponseGet(_), TxnOp::Get(_)) => true,
            (TxnOpResponse::ResponseDelete(_), TxnOp::Delete(_)) => true,
            _ => false,
        }
    }
}

/// What the backend reports for a transaction: which branch ran, and one
/// response per operation of that branch, in order.
pub struct TxnResponse {
    pub succeeded: bool,
    pub responses: Vec<TxnOpResponse>,
}

/// The responses answer the operations one for one, in order.
pub open spec fn responses_answer(rs: Seq<TxnOpResponse>, ops: Seq<TxnOp>) -> bool {
    rs.len() == ops.len() && forall|i: int| 0 <= i < rs.len() ==> answers(#[trigger] rs[i], ops[i])
}

impl TxnResponse {
    /// Whether this response has the shape that `req` calls for: one response
    /// of the matching kind per operation of the branch that ran.
    pub fn matches_request(&self, req: &TxnRequest) -> (r: bool)
        ensures
            r == responses_answer(
                self.responses@,
                if self.succeeded { req.success@ } else { req.failure@ },
            ),
    {
        let ops = if self.succeeded { &req.success } else { &req.failure };
        if self.responses.len() != ops.len() {
            return false;
        }
        let mut i: usize = 0;
        while i < ops.len()
            invariant
                ops@ == if self.succeeded { req.success@ } else { req.failure@ },
                self.responses@.len() == ops@.len(),
                0 <= i <= ops@.len(),
                forall|j: int| 0 <= j < i ==> answers(#[trigger] self.responses@[j], ops@[j]),
            decreases ops@.len() - i,
        {
            if !self.responses[i].answers(&ops[i]) {
                assert(!answers(self.responses@[i as int], ops@[i as int]));
                return false;
            }
            i += 1;
        }
        true
    }
}

} // verus!
