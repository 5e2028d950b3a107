use common_meta::{Compare, CompareOp, Txn, TxnBuildError, TxnOp, TxnOpResponse, TxnRequest, TxnResponse};

#[test]
fn test_compare() {
    // Equal
    let compare = Compare::with_value(vec![1], CompareOp::Equal, vec![1]);
    assert!(compare.compare_value(Some(&vec![1])));
    assert!(!compare.compare_value(None));
    let compare = Compare::with_value_not_exists(vec![1], CompareOp::Equal);
    assert!(compare.compare_value(None));

    // Greater
    let compare = Compare::with_value(vec![1], CompareOp::Greater, vec![1]);
    assert!(compare.compare_value(Some(&vec![2])));
    assert!(!compare.compare_value(None));
    let compare = Compare::with_value_not_exists(vec![1], CompareOp::Greater);
    assert!(!compare.compare_value(None));
    assert!(compare.compare_value(Some(&vec![1])));

    // Less
    let compare = Compare::with_value(vec![1], CompareOp::Less, vec![1]);
    assert!(compare.compare_value(Some(&vec![0])));
    assert!(compare.compare_value(None));
    let compare = Compare::with_value_not_exists(vec![1], CompareOp::Less);
    assert!(!compare.compare_value(None));
    assert!(!compare.compare_value(Some(&vec![1])));

    // NotEqual
    let compare = Compare::with_value(vec![1], CompareOp::NotEqual, vec![1]);
    assert!(!compare.compare_value(Some(&vec![1])));
    assert!(compare.compare_value(Some(&vec![2])));
    assert!(compare.compare_value(None));
    let compare = Compare::with_value_not_exists(vec![1], CompareOp::NotEqual);
    assert!(!compare.compare_value(None));
    assert!(compare.compare_value(Some(&vec![1])));
}

#[test]
fn test_txn() {
    let txn = Txn::new()
        .when(vec![Compare::with_value(vec![1], CompareOp::Equal, vec![1])])
        .unwrap()
        .and_then(vec![TxnOp::Put(vec![1], vec![1])])
        .unwrap()
        .or_else(vec![TxnOp::Put(vec![1], vec![2])])
        .unwrap();

    assert_eq!(
        txn,
        Txn {
            req: TxnRequest {
                compare: vec![Compare::with_value(vec![1], CompareOp::Equal, vec![1])],
                success: vec![TxnOp::Put(vec![1], vec![1])],
                failure: vec![TxnOp::Put(vec![1], vec![2])],
            },
            c_when: true,
            c_then: true,
            c_else: true,
        }
    );
}

#[test]
fn compare_equal_present_target() {
    let compare = Compare::with_value(vec![3, 4], CompareOp::Equal, vec![3, 4]);
    assert!(compare.compare_value(Some(&vec![3, 4])));
    assert!(!compare.compare_value(Some(&vec![3, 5])));
    assert!(!compare.compare_value(Some(&vec![3])));
    assert!(!compare.compare_value(None));
}

#[test]
fn compare_lexicographic_order() {
    let greater = Compare::with_value(vec![1, 2], CompareOp::Greater, vec![1, 2]);
    assert!(greater.compare_value(Some(&vec![1, 2, 0])));
    assert!(greater.compare_value(Some(&vec![2])));
    assert!(!greater.compare_value(Some(&vec![1, 2])));
    assert!(!greater.compare_value(Some(&vec![1])));
    assert!(!greater.compare_value(Some(&vec![])));
    let less = Compare::with_value(vec![1, 2], CompareOp::Less, vec![1, 2]);
    assert!(less.compare_value(Some(&vec![1])));
    assert!(less.compare_value(Some(&vec![0, 9, 9])));
    assert!(!less.compare_value(Some(&vec![1, 2])));
    assert!(!less.compare_value(Some(&vec![1, 3])));
}

#[test]
fn compare_absent_target_table() {
    let present = vec![7];
    let eq = Compare::new(vec![1], CompareOp::Equal, None);
    assert!(eq.compare_value(None));
    assert!(!eq.compare_value(Some(&present)));
    let ne = Compare::new(vec![1], CompareOp::NotEqual, None);
    assert!(!ne.compare_value(None));
    assert!(ne.compare_value(Some(&present)));
    let gt = Compare::new(vec![1], CompareOp::Greater, None);
    assert!(!gt.compare_value(None));
    assert!(gt.compare_value(Some(&present)));
    let lt = Compare::new(vec![1], CompareOp::Less, None);
    assert!(!lt.compare_value(None));
    assert!(!lt.compare_value(Some(&present)));
}

#[test]
fn put_if_not_exists_shape() {
    let txn = Txn::put_if_not_exists(vec![5], vec![6]);
    let req: TxnRequest = txn.clone().into();
    assert_eq!(req.compare, vec![Compare::with_value_not_exists(vec![5], CompareOp::Equal)]);
    assert_eq!(req.success, vec![TxnOp::Put(vec![5], vec![6])]);
    assert_eq!(req.failure, vec![TxnOp::Get(vec![5])]);
    assert!(txn.c_when && txn.c_then && txn.c_else);
}

#[test]
fn compare_and_put_shape() {
    let txn = Txn::compare_and_put(vec![5], vec![1], vec![6]);
    let req = txn.req();
    assert_eq!(req.compare, vec![Compare::with_value(vec![5], CompareOp::Equal, vec![1])]);
    assert_eq!(req.success, vec![TxnOp::Put(vec![5], vec![6])]);
    assert_eq!(req.failure, vec![TxnOp::Get(vec![5])]);
}

#[test]
fn max_operations_is_longest_list() {
    let txn = Txn::new()
        .when(vec![
            Compare::with_value(vec![1], CompareOp::Equal, vec![1]),
            Compare::with_value(vec![2], CompareOp::Equal, vec![2]),
        ])
        .unwrap()
        .and_then(vec![TxnOp::Put(vec![1], vec![1])])
        .unwrap()
        .or_else(vec![TxnOp::Get(vec![1]), TxnOp::Get(vec![2]), TxnOp::Delete(vec![3])])
        .unwrap();
    assert_eq!(txn.max_operations(), 3);
    assert_eq!(Txn::new().max_operations(), 0);
}

#[test]
fn builder_misuse_is_refused() {
    let once = Txn::new().when(vec![]).unwrap();
    assert_eq!(once.clone().when(vec![]), Err(TxnBuildError::WhenTwice));
    let then = Txn::new().and_then(vec![]).unwrap();
    assert_eq!(then.clone().when(vec![]), Err(TxnBuildError::WhenAfterAndThen));
    assert_eq!(then.and_then(vec![]), Err(TxnBuildError::AndThenTwice));
    let els = Txn::new().or_else(vec![]).unwrap();
    assert_eq!(els.clone().when(vec![]), Err(TxnBuildError::WhenAfterOrElse));
    assert_eq!(els.clone().and_then(vec![]), Err(TxnBuildError::AndThenAfterOrElse));
    assert_eq!(els.or_else(vec![]), Err(TxnBuildError::OrElseTwice));
}

#[test]
fn stages_may_be_skipped() {
    let txn = Txn::new().when(vec![]).unwrap().or_else(vec![TxnOp::Get(vec![1])]).unwrap();
    assert!(txn.c_when && !txn.c_then && txn.c_else);
    assert_eq!(txn.req.failure, vec![TxnOp::Get(vec![1])]);
}

#[test]
fn merge_concatenates_and_unions_flags() {
    let a = Txn::new().when(vec![Compare::with_value(vec![1], CompareOp::Equal, vec![1])]).unwrap();
    let b = Txn::new().and_then(vec![TxnOp::Put(vec![2], vec![2])]).unwrap();
    let c = Txn::new().or_else(vec![TxnOp::Delete(vec![3])]).unwrap();
    let left = a.clone().merge(b.clone()).merge(c.clone());
    let right = a.clone().merge(b.clone().merge(c.clone()));
    assert_eq!(left, right);
    assert!(left.c_when && left.c_then && left.c_else);
    assert_eq!(left.req.compare, a.req.compare);
    assert_eq!(left.req.success, b.req.success);
    assert_eq!(left.req.failure, c.req.failure);
    let ab = a.clone().merge(Txn::new());
    assert_eq!(ab, a);
}

#[test]
fn merge_all_in_order() {
    let t1 = Txn::put_if_not_exists(vec![1], vec![10]);
    let t2 = Txn::compare_and_put(vec![2], vec![0], vec![20]);
    let t3 = Txn::new().and_then(vec![TxnOp::Delete(vec![3])]).unwrap();
    let all = Txn::merge_all(vec![t1.clone(), t2.clone(), t3.clone()]);
    assert_eq!(all, t1.merge(t2).merge(t3));
    assert_eq!(all.req.compare.len(), 2);
    assert_eq!(all.req.success.len(), 3);
    assert_eq!(all.req.failure.len(), 2);
    assert_eq!(
        all.req.success,
        vec![TxnOp::Put(vec![1], vec![10]), TxnOp::Put(vec![2], vec![20]), TxnOp::Delete(vec![3])]
    );
    assert_eq!(Txn::merge_all(vec![]), Txn::new());
}

#[test]
fn extend_appends_in_order() {
    let mut a = TxnRequest {
        compare: vec![],
        success: vec![TxnOp::Get(vec![1])],
        failure: vec![],
    };
    let b = TxnRequest {
        compare: vec![Compare::new(vec![2], CompareOp::Less, None)],
        success: vec![TxnOp::Get(vec![2])],
        failure: vec![TxnOp::Delete(vec![2])],
    };
    a.extend(b);
    assert_eq!(a.success, vec![TxnOp::Get(vec![1]), TxnOp::Get(vec![2])]);
    assert_eq!(a.compare.len(), 1);
    assert_eq!(a.failure, vec![TxnOp::Delete(vec![2])]);
}

#[test]
fn response_matches_branch() {
    let req: TxnRequest = Txn::put_if_not_exists(vec![1], vec![2]).into();
    let ok = TxnResponse { succeeded: true, responses: vec![TxnOpResponse::ResponsePut(vec![])] };
    assert!(ok.matches_request(&req));
    let wrong_kind = TxnResponse { succeeded: false, responses: vec![TxnOpResponse::ResponsePut(vec![])] };
    assert!(!wrong_kind.matches_request(&req));
    let fail = TxnResponse { succeeded: false, responses: vec![TxnOpResponse::ResponseGet(vec![9])] };
    assert!(fail.matches_request(&req));
    let too_many = TxnResponse {
        succeeded: false,
        responses: vec![TxnOpResponse::ResponseGet(vec![]), TxnOpResponse::ResponseGet(vec![])],
    };
    assert!(!too_many.matches_request(&req));
}
