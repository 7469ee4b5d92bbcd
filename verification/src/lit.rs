//! The fixed byte strings of the API surface: method names, the route word,
//! query parameter names, JSON framing, header names and values, and the
//! synthetic field values of the persistence stub.

use vstd::prelude::*;

verus! {

pub const QUOTE: u8 = 34;
pub const AMP: u8 = 38;
pub const COMMA: u8 = 44;
pub const COLON: u8 = 58;
pub const EQUALS: u8 = 61;
pub const LBRACKET: u8 = 91;
pub const BACKSLASH: u8 = 92;
pub const RBRACKET: u8 = 93;
pub const LBRACE: u8 = 123;
pub const RBRACE: u8 = 125;

/// `GET`
pub open spec fn lit_get() -> Seq<u8> {
    seq![71u8, 69u8, 84u8]
}

/// `POST`
pub open spec fn lit_post() -> Seq<u8> {
    seq![80u8, 79u8, 83u8, 84u8]
}

/// `pets`
pub open spec fn lit_pets() -> Seq<u8> {
    seq![112u8, 101u8, 116u8, 115u8]
}

/// `limit`
pub open spec fn lit_limit() -> Seq<u8> {
    seq![108u8, 105u8, 109u8, 105u8, 116u8]
}

/// `offset`
pub open spec fn lit_offset() -> Seq<u8> {
    seq![111u8, 102u8, 102u8, 115u8, 101u8, 116u8]
}

/// `true`
pub open spec fn lit_true() -> Seq<u8> {
    seq![116u8, 114u8, 117u8, 101u8]
}

/// `id`
pub open spec fn lit_id() -> Seq<u8> {
    seq![105u8, 100u8]
}

/// `name`
pub open spec fn lit_name() -> Seq<u8> {
    seq![110u8, 97u8, 109u8, 101u8]
}

/// `tag`
pub open spec fn lit_tag() -> Seq<u8> {
    seq![116u8, 97u8, 103u8]
}

/// `null`
pub open spec fn lit_null() -> Seq<u8> {
    seq![110u8, 117u8, 108u8, 108u8]
}

/// `john`
pub open spec fn lit_john() -> Seq<u8> {
    seq![106u8, 111u8, 104u8, 110u8]
}

/// `doe`
pub open spec fn lit_doe() -> Seq<u8> {
    seq![100u8, 111u8, 101u8]
}

/// `x-next`
pub open spec fn lit_x_next() -> Seq<u8> {
    seq![120u8, 45u8, 110u8, 101u8, 120u8, 116u8]
}

/// `content-type`
pub open spec fn lit_content_type() -> Seq<u8> {
    seq![99u8, 111u8, 110u8, 116u8, 101u8, 110u8, 116u8, 45u8, 116u8, 121u8, 112u8, 101u8]
}

/// `application/json`
pub open spec fn lit_application_json() -> Seq<u8> {
    seq![
        97u8,
        112u8,
        112u8,
        108u8,
        105u8,
        99u8,
        97u8,
        116u8,
        105u8,
        111u8,
        110u8,
        47u8,
        106u8,
        115u8,
        111u8,
        110u8,
    ]
}

/// `/pets?limit=`
pub open spec fn lit_next_prefix() -> Seq<u8> {
    seq![47u8, 112u8, 101u8, 116u8, 115u8, 63u8, 108u8, 105u8, 109u8, 105u8, 116u8, 61u8]
}

/// `&offset=`
pub open spec fn lit_next_infix() -> Seq<u8> {
    seq![38u8, 111u8, 102u8, 102u8, 115u8, 101u8, 116u8, 61u8]
}

/// `{"id":`
pub open spec fn lit_id_prefix() -> Seq<u8> {
    seq![123u8, 34u8, 105u8, 100u8, 34u8, 58u8]
}

/// `,"name":"`
pub open spec fn lit_name_infix() -> Seq<u8> {
    seq![44u8, 34u8, 110u8, 97u8, 109u8, 101u8, 34u8, 58u8, 34u8]
}

/// `","tag":`
pub open spec fn lit_tag_infix() -> Seq<u8> {
    seq![34u8, 44u8, 34u8, 116u8, 97u8, 103u8, 34u8, 58u8]
}

/// `{"items":`
pub open spec fn lit_items_prefix() -> Seq<u8> {
    seq![123u8, 34u8, 105u8, 116u8, 101u8, 109u8, 115u8, 34u8, 58u8]
}

pub fn get_vec() -> (r: Vec<u8>)
    ensures
        r@ == lit_get(),
{
    let r: Vec<u8> = vec![71u8, 69u8, 84u8];
    proof {
        assert(r@ =~= lit_get());
    }
    r
}

pub fn post_vec() -> (r: Vec<u8>)
    ensures
        r@ == lit_post(),
{
    let r: Vec<u8> = vec![80u8, 79u8, 83u8, 84u8];
    proof {
        assert(r@ =~= lit_post());
    }
    r
}

pub fn pets_vec() -> (r: Vec<u8>)
    ensures
        r@ == lit_pets(),
{
    let r: Vec<u8> = vec![112u8, 101u8, 116u8, 115u8];
    proof {
        assert(r@ =~= lit_pets());
    }
    r
}

pub fn limit_vec() -> (r: Vec<u8>)
    ensures
        r@ == lit_limit(),
{
    let r: Vec<u8> = vec![108u8, 105u8, 109u8, 105u8, 116u8];
    proof {
        assert(r@ =~= lit_limit());
    }
    r
}

pub fn offset_vec() -> (r: Vec<u8>)
    ensures
        r@ == lit_offset(),
{
    let r: Vec<u8> = vec![111u8, 102u8, 102u8, 115u8, 101u8, 116u8];
    proof {
        assert(r@ =~= lit_offset());
    }
    r
}

pub fn true_vec() -> (r: Vec<u8>)
    ensures
        r@ == lit_true(),
{
    let r: Vec<u8> = vec![116u8, 114u8, 117u8, 101u8];
    proof {
        assert(r@ =~= lit_true());
    }
    r
}

pub fn id_vec() -> (r: Vec<u8>)
    ensures
        r@ == lit_id(),
{
    let r: Vec<u8> = vec![105u8, 100u8];
    proof {
        assert(r@ =~= lit_id());
    }
    r
}

pub fn name_vec() -> (r: Vec<u8>)
    ensures
        r@ == lit_name(),
{
    let r: Vec<u8> = vec![110u8, 97u8, 109u8, 101u8];
    proof {
        assert(r@ =~= lit_name());
    }
    r
}

pub fn tag_vec() -> (r: Vec<u8>)
    ensures
        r@ == lit_tag(),
{
    let r: Vec<u8> = vec![116u8, 97u8, 103u8];
    proof {
        assert(r@ =~= lit_tag());
    }
    r
}

pub fn null_vec() -> (r: Vec<u8>)
    ensures
        r@ == lit_null(),
{
    let r: Vec<u8> = vec![110u8, 117u8, 108u8, 108u8];
    proof {
        assert(r@ =~= lit_null());
    }
    r
}

pub fn john_vec() -> (r: Vec<u8>)
    ensures
        r@ == lit_john(),
{
    let r: Vec<u8> = vec![106u8, 111u8, 104u8, 110u8];
    proof {
        assert(r@ =~= lit_john());
    }
    r
}

pub fn doe_vec() -> (r: Vec<u8>)
    ensures
        r@ == lit_doe(),
{
    let r: Vec<u8> = vec![100u8, 111u8, 101u8];
    proof {
        assert(r@ =~= lit_doe());
    }
    r
}

pub fn x_next_vec() -> (r: Vec<u8>)
    ensures
        r@ == lit_x_next(),
{
    let r: Vec<u8> = vec![120u8, 45u8, 110u8, 101u8, 120u8, 116u8];
    proof {
        assert(r@ =~= lit_x_next());
    }
    r
}

pub fn content_type_vec() -> (r: Vec<u8>)
    ensures
        r@ == lit_content_type(),
{
    let r: Vec<u8> = vec![
        99u8, 111u8, 110u8, 116u8, 101u8, 110u8, 116u8, 45u8, 116u8, 121u8, 112u8, 101u8,
    ];
    proof {
        assert(r@ =~= lit_content_type());
    }
    r
}

pub fn application_json_vec() -> (r: Vec<u8>)
    ensures
        r@ == lit_application_json(),
{
    let r: Vec<u8> = vec![
        97u8, 112u8, 112u8, 108u8, 105u8, 99u8, 97u8, 116u8, 105u8, 111u8, 110u8, 47u8, 106u8,
        115u8, 111u8, 110u8,
    ];
    proof {
        assert(r@ =~= lit_application_json());
    }
    r
}

pub fn next_prefix_vec() -> (r: Vec<u8>)
    ensures
        r@ == lit_next_prefix(),
{
    let r: Vec<u8> = vec![
        47u8, 112u8, 101u8, 116u8, 115u8, 63u8, 108u8, 105u8, 109u8, 105u8, 116u8, 61u8,
    ];
    proof {
        assert(r@ =~= lit_next_prefix());
    }
    r
}

pub fn next_infix_vec() -> (r: Vec<u8>)
    ensures
        r@ == lit_next_infix(),
{
    let r: Vec<u8> = vec![38u8, 111u8, 102u8, 102u8, 115u8, 101u8, 116u8, 61u8];
    proof {
        assert(r@ =~= lit_next_infix());
    }
    r
}

pub fn id_prefix_vec() -> (r: Vec<u8>)
    ensures
        r@ == lit_id_prefix(),
{
    let r: Vec<u8> = vec![123u8, 34u8, 105u8, 100u8, 34u8, 58u8];
    proof {
        assert(r@ =~= lit_id_prefix());
    }
    r
}

pub fn name_infix_vec() -> (r: Vec<u8>)
    ensures
        r@ == lit_name_infix(),
{
    let r: Vec<u8> = vec![44u8, 34u8, 110u8, 97u8, 109u8, 101u8, 34u8, 58u8, 34u8];
    proof {
        assert(r@ =~= lit_name_infix());
    }
    r
}

pub fn tag_infix_vec() -> (r: Vec<u8>)
    ensures
        r@ == lit_tag_infix(),
{
    let r: Vec<u8> = vec![34u8, 44u8, 34u8, 116u8, 97u8, 103u8, 34u8, 58u8];
    proof {
        assert(r@ =~= lit_tag_infix());
    }
    r
}

pub fn items_prefix_vec() -> (r: Vec<u8>)
    ensures
        r@ == lit_items_prefix(),
{
    let r: Vec<u8> = vec![123u8, 34u8, 105u8, 116u8, 101u8, 109u8, 115u8, 34u8, 58u8];
    proof {
        assert(r@ =~= lit_items_prefix());
    }
    r
}

} // verus!
