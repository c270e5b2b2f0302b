//! How a path addresses an order: the identifier stands in it as it is, and
//! can be read back from it.

use crate::contract::Request;
use crate::orders::{
    CancelOrder, CancelOrderByClientId, CancelTriggerOrder, GetOrder, GetOrderByClientId,
    ModifyOrder, ModifyOrderByClientId,
};
use crate::text::{decimal_text, lemma_decimal_text_injective};
use vstd::prelude::*;

verus! {

/// A text between a prefix and a suffix is determined by the whole.
pub proof fn lemma_framed_text_is_determined(
    prefix: Seq<char>,
    a: Seq<char>,
    b: Seq<char>,
    suffix: Seq<char>,
)
    requires
        prefix + a + suffix == prefix + b + suffix,
    ensures
        a == b,
{
    let left = prefix + a + suffix;
    let right = prefix + b + suffix;
    assert(left.len() == prefix.len() + a.len() + suffix.len());
    assert(right.len() == prefix.len() + b.len() + suffix.len());
    assert(a =~= left.subrange(prefix.len() as int, (prefix.len() + a.len()) as int));
    assert(b =~= right.subrange(prefix.len() as int, (prefix.len() + b.len()) as int));
}

/// Two `GetOrder` calls with one path address one order.
pub proof fn lemma_get_order_path_names_the_order(a: GetOrder, b: GetOrder)
    requires
        a.spec_path() == b.spec_path(),
    ensures
        a.id == b.id,
{
    let empty = Seq::<char>::empty();
    assert("/orders/"@ + decimal_text(a.id as nat) + empty =~= a.spec_path());
    assert("/orders/"@ + decimal_text(b.id as nat) + empty =~= b.spec_path());
    lemma_framed_text_is_determined(
        "/orders/"@,
        decimal_text(a.id as nat),
        decimal_text(b.id as nat),
        empty,
    );
    lemma_decimal_text_injective(a.id as nat, b.id as nat);
}

/// Two `CancelOrder` calls with one path address one order.
pub proof fn lemma_cancel_order_path_names_the_order(a: CancelOrder, b: CancelOrder)
    requires
        a.spec_path() == b.spec_path(),
    ensures
        a.id == b.id,
{
    let empty = Seq::<char>::empty();
    assert("/orders/"@ + decimal_text(a.id as nat) + empty =~= a.spec_path());
    assert("/orders/"@ + decimal_text(b.id as nat) + empty =~= b.spec_path());
    lemma_framed_text_is_determined(
        "/orders/"@,
        decimal_text(a.id as nat),
        decimal_text(b.id as nat),
        empty,
    );
    lemma_decimal_text_injective(a.id as nat, b.id as nat);
}

/// Two `CancelTriggerOrder` calls with one path address one order.
pub proof fn lemma_cancel_trigger_order_path_names_the_order(
    a: CancelTriggerOrder,
    b: CancelTriggerOrder,
)
    requires
        a.spec_path() == b.spec_path(),
    ensures
        a.id == b.id,
{
    let empty = Seq::<char>::empty();
    assert("/conditional_orders/"@ + decimal_text(a.id as nat) + empty =~= a.spec_path());
    assert("/conditional_orders/"@ + decimal_text(b.id as nat) + empty =~= b.spec_path());
    lemma_framed_text_is_determined(
        "/conditional_orders/"@,
        decimal_text(a.id as nat),
        decimal_text(b.id as nat),
        empty,
    );
    lemma_decimal_text_injective(a.id as nat, b.id as nat);
}

/// Two `ModifyOrder` calls with one path address one order.
pub proof fn lemma_modify_order_path_names_the_order(a: ModifyOrder, b: ModifyOrder)
    requires
        a.spec_path() == b.spec_path(),
    ensures
        a.id == b.id,
{
    lemma_framed_text_is_determined(
        "/orders/"@,
        decimal_text(a.id as nat),
        decimal_text(b.id as nat),
        "/modify"@,
    );
    lemma_decimal_text_injective(a.id as nat, b.id as nat);
}

/// The paths of the operations that address an order by its client id hold
/// the client id as it stands, so that two calls of one operation with one
/// path carry one client id.
pub proof fn lemma_client_id_path_names_the_order(
    cancel_a: CancelOrderByClientId,
    cancel_b: CancelOrderByClientId,
    get_a: GetOrderByClientId,
    get_b: GetOrderByClientId,
    modify_a: ModifyOrderByClientId,
    modify_b: ModifyOrderByClientId,
)
    ensures
        cancel_a.spec_path() == cancel_b.spec_path() ==> cancel_a.client_id@ == cancel_b.client_id@,
        get_a.spec_path() == get_b.spec_path() ==> get_a.client_id@ == get_b.client_id@,
        modify_a.spec_path() == modify_b.spec_path() ==> modify_a.client_id@
            == modify_b.client_id@,
{
    let empty = Seq::<char>::empty();
    let prefix = "/orders/by_client_id/"@;
    assert(prefix + cancel_a.client_id@ + empty =~= cancel_a.spec_path());
    assert(prefix + cancel_b.client_id@ + empty =~= cancel_b.spec_path());
    assert(prefix + get_a.client_id@ + empty =~= get_a.spec_path());
    assert(prefix + get_b.client_id@ + empty =~= get_b.spec_path());
    if cancel_a.spec_path() == cancel_b.spec_path() {
        lemma_framed_text_is_determined(prefix, cancel_a.client_id@, cancel_b.client_id@, empty);
    }
    if get_a.spec_path() == get_b.spec_path() {
        lemma_framed_text_is_determined(prefix, get_a.client_id@, get_b.client_id@, empty);
    }
    if modify_a.spec_path() == modify_b.spec_path() {
        lemma_framed_text_is_determined(
            prefix,
            modify_a.client_id@,
            modify_b.client_id@,
            "/modify"@,
        );
    }
}

} // verus!
