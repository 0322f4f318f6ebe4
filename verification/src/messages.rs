use vstd::prelude::*;

verus! {

/// The bytes of "Hello, ", the text placed before the caller's name.
pub open spec fn greeting_prefix() -> Seq<u8> {
    seq![72u8, 101u8, 108u8, 108u8, 111u8, 44u8, 32u8]
}

/// The bytes of "Hello, " as a fresh vector.
pub fn greeting_prefix_vec() -> (r: Vec<u8>)
    ensures
        r@ == greeting_prefix(),
{
    vec![72u8, 101u8, 108u8, 108u8, 111u8, 44u8, 32u8]
}

/// The bytes of ". Welcome from Rust!", the text placed after the caller's
/// name.
pub open spec fn greeting_suffix() -> Seq<u8> {
    seq![
        46u8, 32u8, 87u8, 101u8, 108u8, 99u8, 111u8, 109u8, 101u8, 32u8, 102u8, 114u8, 111u8,
        109u8, 32u8, 82u8, 117u8, 115u8, 116u8, 33u8,
    ]
}

/// The bytes of ". Welcome from Rust!" as a fresh vector.
pub fn greeting_suffix_vec() -> (r: Vec<u8>)
    ensures
        r@ == greeting_suffix(),
{
    vec![
        46u8, 32u8, 87u8, 101u8, 108u8, 99u8, 111u8, 109u8, 101u8, 32u8, 102u8, 114u8, 111u8,
        109u8, 32u8, 82u8, 117u8, 115u8, 116u8, 33u8,
    ]
}

/// The bytes of "Error: Invalid UTF-8", the text substituted for a name whose
/// bytes do not decode.
pub open spec fn invalid_utf8_text() -> Seq<u8> {
    seq![
        69u8, 114u8, 114u8, 111u8, 114u8, 58u8, 32u8, 73u8, 110u8, 118u8, 97u8, 108u8, 105u8,
        100u8, 32u8, 85u8, 84u8, 70u8, 45u8, 56u8,
    ]
}

/// The bytes of "Error: Invalid UTF-8" as a fresh vector.
pub fn invalid_utf8_text_vec() -> (r: Vec<u8>)
    ensures
        r@ == invalid_utf8_text(),
{
    vec![
        69u8, 114u8, 114u8, 111u8, 114u8, 58u8, 32u8, 73u8, 110u8, 118u8, 97u8, 108u8, 105u8,
        100u8, 32u8, 85u8, 84u8, 70u8, 45u8, 56u8,
    ]
}

/// The bytes of "Error: name pointer was null", the whole answer when no name
/// was supplied at all.
pub open spec fn null_input_text() -> Seq<u8> {
    seq![
        69u8, 114u8, 114u8, 111u8, 114u8, 58u8, 32u8, 110u8, 97u8, 109u8, 101u8, 32u8, 112u8,
        111u8, 105u8, 110u8, 116u8, 101u8, 114u8, 32u8, 119u8, 97u8, 115u8, 32u8, 110u8, 117u8,
        108u8, 108u8,
    ]
}

/// The bytes of "Error: name pointer was null" as a fresh vector.
pub fn null_input_text_vec() -> (r: Vec<u8>)
    ensures
        r@ == null_input_text(),
{
    vec![
        69u8, 114u8, 114u8, 111u8, 114u8, 58u8, 32u8, 110u8, 97u8, 109u8, 101u8, 32u8, 112u8,
        111u8, 105u8, 110u8, 116u8, 101u8, 114u8, 32u8, 119u8, 97u8, 115u8, 32u8, 110u8, 117u8,
        108u8, 108u8,
    ]
}

} // verus!
