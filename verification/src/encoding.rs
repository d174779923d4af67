//! Constructor arguments and parameter types as plain values, and their
//! encoding behind a contract's bytecode.

use ethers::abi::{Abi, ParamType, Token};
use ethers::contract::ContractFactory;
use ethers::providers::Provider;
use ethers::types::{Bytes, H160, U256};
use vstd::prelude::*;

verus! {

/// An interface description: the signatures of a contract's constructor and functions.
#[verifier::external_type_specification]
#[verifier::external_body]
pub struct ExAbi(Abi);

/// One constructor argument, as the interface encoding takes it.
#[verifier::external_type_specification]
#[verifier::external_body]
pub struct ExToken(Token);

/// The type of one parameter, as an interface description holds it.
#[verifier::external_type_specification]
#[verifier::external_body]
pub struct ExParamType(ParamType);

/// A value that can be handed to a constructor. Integers are 256 bits
/// wide, given as four words from the lowest up.
#[derive(Debug, PartialEq, Eq)]
pub enum AbiValue {
    Address([u8; 20]),
    FixedBytes(Vec<u8>),
    Bytes(Vec<u8>),
    Int([u64; 4]),
    Uint([u64; 4]),
    Bool(bool),
    String(String),
    FixedArray(Vec<AbiValue>),
    Array(Vec<AbiValue>),
    Tuple(Vec<AbiValue>),
}

/// The type of a constructor parameter. Sizes of integers are in bits,
/// those of fixed bytes and fixed arrays in elements.
#[derive(Debug, PartialEq, Eq)]
pub enum AbiType {
    Address,
    Bytes,
    Int(usize),
    Uint(usize),
    Bool,
    String,
    Array(Box<AbiType>),
    FixedBytes(usize),
    FixedArray(Box<AbiType>, usize),
    Tuple(Vec<AbiType>),
}

/// The types of the parameters of the constructor that `interface`
/// declares, in order: `None` where it declares no constructor.
pub uninterp spec fn constructor_types(interface: Abi) -> Option<Seq<AbiType>>;

/// The payload that deploys `bytecode` with `args` handed to the
/// constructor that `interface` declares; where the arguments are
/// refused, the text of the refusal.
pub uninterp spec fn deployment_payload(
    interface: Abi,
    bytecode: Seq<u8>,
    args: Seq<AbiValue>,
) -> Result<Seq<u8>, Seq<char>>;

/// Whether an encoding, or its refusal, is the one `named`.
pub open spec fn encoding_is(
    result: Result<Vec<u8>, String>,
    named: Result<Seq<u8>, Seq<char>>,
) -> bool {
    match result {
        Ok(payload) => named matches Ok(p) && p == payload@,
        Err(text) => named matches Err(t) && t == text@,
    }
}

/// The parameter type as the library holds it: each variant of
/// `ParamType` becomes the variant of the same name, with the same sizes
/// and the same types inside, in the same order. Only converts.
#[verifier::external_body]
fn abi_type_of(kind: &ParamType) -> AbiType {
    match kind {
        ParamType::Address => AbiType::Address,
        ParamType::Bytes => AbiType::Bytes,
        ParamType::Int(size) => AbiType::Int(*size),
        ParamType::Uint(size) => AbiType::Uint(*size),
        ParamType::Bool => AbiType::Bool,
        ParamType::String => AbiType::String,
        ParamType::Array(of) => AbiType::Array(Box::new(abi_type_of(of))),
        ParamType::FixedBytes(size) => AbiType::FixedBytes(*size),
        ParamType::FixedArray(of, size) => AbiType::FixedArray(Box::new(abi_type_of(of)), *size),
        ParamType::Tuple(of) => AbiType::Tuple(of.iter().map(abi_type_of).collect()),
    }
}

/// The argument as the interface encoding takes it: each variant of
/// `AbiValue` becomes the variant of `Token` of the same name, with the
/// same bytes, words and values inside, in the same order. Only converts.
#[verifier::external_body]
fn token_of(value: AbiValue) -> Token {
    match value {
        AbiValue::Address(bytes) => Token::Address(H160(bytes)),
        AbiValue::FixedBytes(bytes) => Token::FixedBytes(bytes),
        AbiValue::Bytes(bytes) => Token::Bytes(bytes),
        AbiValue::Int(words) => Token::Int(U256(words)),
        AbiValue::Uint(words) => Token::Uint(U256(words)),
        AbiValue::Bool(flag) => Token::Bool(flag),
        AbiValue::String(text) => Token::String(text),
        AbiValue::FixedArray(items) => Token::FixedArray(items.into_iter().map(token_of).collect()),
        AbiValue::Array(items) => Token::Array(items.into_iter().map(token_of).collect()),
        AbiValue::Tuple(items) => Token::Tuple(items.into_iter().map(token_of).collect()),
    }
}

/// `Contract::constructor`, and the `kind` of each of its `inputs`.
///
/// Trusted: the list returned is the one named by `constructor_types`:
/// the constructor's parameter types in their order, each converted by
/// `abi_type_of`, and none exactly where the interface declares no
/// constructor.
#[verifier::external_body]
pub(crate) fn constructor_inputs(interface: &Abi) -> (kinds: Option<Vec<AbiType>>)
    ensures
        kinds is Some <==> constructor_types(*interface) is Some,
        kinds matches Some(ks) ==> constructor_types(*interface) == Some(ks@),
{
    interface.constructor().map(|c| c.inputs.iter().map(|p| abi_type_of(&p.kind)).collect())
}

/// `ContractFactory::deploy_tokens`, and the data of the transaction it builds.
///
/// Trusted: the payload returned is the one named by `deployment_payload`
/// and begins with the bytecode; where the factory refuses the arguments
/// (they do not match the constructor's parameter types, or there are
/// some and the interface has no constructor), the text returned is that
/// of its error. The arguments are converted by `token_of`. The factory's
/// type check reads a tuple parameter's component types at each position
/// of a tuple argument without comparing the two lengths, and panics on a
/// tuple argument that is longer; and the encoding adds up the lengths of
/// heads and tails in 32 bits, which overflow from four gibibytes on. The
/// precondition leaves both out. The factory wants a client to hand on to
/// what it builds; it never calls it while encoding, so it gets one that
/// is connected to nothing. The transaction that it builds always has data.
#[verifier::external_body]
pub(crate) fn encode_deployment(interface: &Abi, bytecode: &Vec<u8>, args: Vec<AbiValue>) -> (payload: Result<
    Vec<u8>,
    String,
>)
    requires
        arguments_encodable(args@, constructor_types(*interface)),
    ensures
        encoding_is(payload, deployment_payload(*interface, bytecode@, args@)),
        payload matches Ok(p) ==> bytecode@.is_prefix_of(p@),
{
    let client = std::sync::Arc::new(Provider::mocked().0);
    let factory = ContractFactory::new(interface.clone(), Bytes::from(bytecode.clone()), client);
    match factory.deploy_tokens(args.into_iter().map(token_of).collect()) {
        Ok(deployer) => Ok(deployer.tx.data().map(|data| data.to_vec()).unwrap_or_default()),
        Err(error) => Err(error.to_string()),
    }
}

/// Whether no tuple in `value` has more components than the tuple type
/// at its place in `kind`, as far as value and type have the same shape:
/// through tuples, arrays and fixed arrays. Where the shapes part, the
/// value does not match the type, and nothing below is looked at.
pub open spec fn tuples_fit(value: AbiValue, kind: AbiType) -> bool
    decreases value,
{
    match value {
        AbiValue::Tuple(items) => match kind {
            AbiType::Tuple(kinds) => {
                &&& items@.len() <= kinds@.len()
                &&& forall|i: int|
                    0 <= i < items@.len() ==> tuples_fit(#[trigger] items@[i], kinds@[i])
            },
            _ => true,
        },
        AbiValue::Array(items) => match kind {
            AbiType::Array(of) => forall|i: int|
                0 <= i < items@.len() ==> tuples_fit(#[trigger] items@[i], *of),
            _ => true,
        },
        AbiValue::FixedArray(items) => match kind {
            AbiType::FixedArray(of, _) => forall|i: int|
                0 <= i < items@.len() ==> tuples_fit(#[trigger] items@[i], *of),
            _ => true,
        },
        _ => true,
    }
}

/// Whether the arguments can be held against the constructor's parameter
/// types: where there are as many of the one as of the other, each
/// argument's tuples fit the type at its place. Arguments of another
/// number, or for an interface without a constructor, are never held
/// against a type.
pub open spec fn arguments_fit(args: Seq<AbiValue>, kinds: Option<Seq<AbiType>>) -> bool {
    match kinds {
        Some(ks) => ks.len() == args.len() ==> forall|i: int|
            0 <= i < args.len() ==> tuples_fit(#[trigger] args[i], ks[i]),
        None => true,
    }
}

/// Whether the arguments can be handed to the encoding: their tuples fit
/// the constructor's parameter types, and they are small enough.
pub open spec fn arguments_encodable(args: Seq<AbiValue>, kinds: Option<Seq<AbiType>>) -> bool {
    arguments_fit(args, kinds) && arguments_small(args)
}

/// Whether every one of `items` fits the one type `of`.
pub open spec fn all_fit(items: Seq<AbiValue>, of: AbiType) -> bool {
    forall|i: int| 0 <= i < items.len() ==> tuples_fit(#[trigger] items[i], of)
}

/// Tests `tuples_fit`.
pub fn check_tuples_fit(value: &AbiValue, kind: &AbiType) -> (fits: bool)
    ensures
        fits == tuples_fit(*value, *kind),
    decreases value, 1int,
{
    match value {
        AbiValue::Tuple(items) => match kind {
            AbiType::Tuple(kinds) => {
                if items.len() > kinds.len() {
                    return false;
                }
                let mut i: usize = 0;
                while i < items.len()
                    invariant
                        i <= items@.len() <= kinds@.len(),
                        *value == AbiValue::Tuple(*items),
                        *kind == AbiType::Tuple(*kinds),
                        forall|j: int| 0 <= j < i ==> tuples_fit(#[trigger] items@[j], kinds@[j]),
                    decreases items@.len() - i,
                {
                    proof {
                        lemma_item_is_smaller(*value, *items, i as int);
                    }
                    if !check_tuples_fit(&items[i], &kinds[i]) {
                        assert(!tuples_fit(items@[i as int], kinds@[i as int]));
                        return false;
                    }
                    i += 1;
                }
                true
            },
            _ => true,
        },
        AbiValue::Array(items) => match kind {
            AbiType::Array(of) => check_all_fit(value, items, of),
            _ => true,
        },
        AbiValue::FixedArray(items) => match kind {
            AbiType::FixedArray(of, _) => check_all_fit(value, items, of),
            _ => true,
        },
        _ => true,
    }
}

/// An item of a tuple, an array or a fixed array is smaller than the whole.
proof fn lemma_item_is_smaller(whole: AbiValue, items: Vec<AbiValue>, i: int)
    requires
        whole == AbiValue::Tuple(items) || whole == AbiValue::Array(items) || whole
            == AbiValue::FixedArray(items),
        0 <= i < items@.len(),
    ensures
        decreases_to!(whole => items@[i]),
{
    match whole {
        AbiValue::Tuple(held) => {
            assert(decreases_to!(whole => held));
        },
        AbiValue::Array(held) => {
            assert(decreases_to!(whole => held));
        },
        AbiValue::FixedArray(held) => {
            assert(decreases_to!(whole => held));
        },
        _ => {},
    }
    assert(decreases_to!(items => items@));
    assert(decreases_to!(items@ => items@[i]));
}

/// Tests `all_fit` for the items of the array or fixed array `whole`.
fn check_all_fit(whole: &AbiValue, items: &Vec<AbiValue>, of: &AbiType) -> (fits: bool)
    requires
        *whole == AbiValue::Array(*items) || *whole == AbiValue::FixedArray(*items),
    ensures
        fits == all_fit(items@, *of),
    decreases whole, 0int,
{
    let mut i: usize = 0;
    while i < items.len()
        invariant
            i <= items@.len(),
            *whole == AbiValue::Array(*items) || *whole == AbiValue::FixedArray(*items),
            forall|j: int| 0 <= j < i ==> tuples_fit(#[trigger] items@[j], *of),
        decreases items@.len() - i,
    {
        proof {
            lemma_item_is_smaller(*whole, *items, i as int);
        }
        if !check_tuples_fit(&items[i], of) {
            assert(!tuples_fit(items@[i as int], *of));
            return false;
        }
        i += 1;
    }
    true
}

/// Tests `arguments_fit`.
pub fn check_arguments_fit(args: &Vec<AbiValue>, kinds: &Option<Vec<AbiType>>) -> (fits: bool)
    ensures
        fits == arguments_fit(
            args@,
            match *kinds {
                Some(ks) => Some(ks@),
                None => None,
            },
        ),
{
    match kinds {
        None => true,
        Some(ks) => {
            if ks.len() != args.len() {
                return true;
            }
            let mut i: usize = 0;
            while i < args.len()
                invariant
                    i <= args@.len() == ks@.len(),
                    *kinds == Some(*ks),
                    forall|j: int| 0 <= j < i ==> tuples_fit(#[trigger] args@[j], ks@[j]),
                decreases args@.len() - i,
            {
                if !check_tuples_fit(&args[i], &ks[i]) {
                    assert(!tuples_fit(args@[i as int], ks@[i as int]));
                    return false;
                }
                i += 1;
            }
            true
        },
    }
}

/// The most 32-byte words that the arguments of one deployment may take
/// when encoded: half a gibibyte of them.
pub const MAX_ENCODED_WORDS: usize = 0x0100_0000;

/// The number of bytes that a text takes: those of its UTF-8 encoding.
pub open spec fn text_bytes(text: String) -> nat {
    (vstd::utf8::encode_utf8(text@).len() as usize) as nat
}

/// A bound from above on the 32-byte words that the encoding of `value`
/// takes, heads and tails together: one for a value of fixed size, one
/// for every 32 bytes of a byte string or text and three more, and two
/// more than its items for a tuple, an array or a fixed array.
pub open spec fn encoded_words(value: AbiValue) -> nat
    decreases value, 0nat,
{
    match value {
        AbiValue::Address(_) => 1,
        AbiValue::Int(_) => 1,
        AbiValue::Uint(_) => 1,
        AbiValue::Bool(_) => 1,
        AbiValue::FixedBytes(bytes) => bytes@.len() / 32 + 3,
        AbiValue::Bytes(bytes) => bytes@.len() / 32 + 3,
        AbiValue::String(text) => text_bytes(text) / 32 + 3,
        AbiValue::FixedArray(items) => 2 + words_of_first(items@, items@.len()),
        AbiValue::Array(items) => 2 + words_of_first(items@, items@.len()),
        AbiValue::Tuple(items) => 2 + words_of_first(items@, items@.len()),
    }
}

/// The sum of `encoded_words` over the first `n` of `items`.
pub open spec fn words_of_first(items: Seq<AbiValue>, n: nat) -> nat
    decreases items, n,
{
    if n == 0 || n > items.len() {
        0
    } else {
        words_of_first(items, (n - 1) as nat) + encoded_words(items[n - 1])
    }
}

/// Whether the arguments are small enough to be encoded: their words
/// together are at most `MAX_ENCODED_WORDS`.
pub open spec fn arguments_small(args: Seq<AbiValue>) -> bool {
    words_of_first(args, args.len()) <= MAX_ENCODED_WORDS
}

/// The sum over the first items grows with their number.
proof fn lemma_words_grow(items: Seq<AbiValue>, n: nat, m: nat)
    requires
        n <= m <= items.len(),
    ensures
        words_of_first(items, n) <= words_of_first(items, m),
    decreases m,
{
    if n < m {
        lemma_words_grow(items, n, (m - 1) as nat);
    }
}

/// What is left of `budget` words once `cost` of them are taken; `None`
/// where there are not as many.
fn take_words(budget: usize, cost: usize) -> (rest: Option<usize>)
    ensures
        cost <= budget ==> rest == Some((budget - cost) as usize),
        cost > budget ==> rest is None,
{
    if cost <= budget {
        Some(budget - cost)
    } else {
        None
    }
}

/// What is left of `budget` words once those of `value` are taken;
/// `None` exactly where the value takes more.
pub fn spend_words(value: &AbiValue, budget: usize) -> (rest: Option<usize>)
    ensures
        encoded_words(*value) <= budget ==> rest == Some((budget - encoded_words(*value)) as usize),
        encoded_words(*value) > budget ==> rest is None,
    decreases value, 1int,
{
    match value {
        AbiValue::Address(_) => take_words(budget, 1),
        AbiValue::Int(_) => take_words(budget, 1),
        AbiValue::Uint(_) => take_words(budget, 1),
        AbiValue::Bool(_) => take_words(budget, 1),
        AbiValue::FixedBytes(bytes) => take_words(budget, bytes.len() / 32 + 3),
        AbiValue::Bytes(bytes) => take_words(budget, bytes.len() / 32 + 3),
        AbiValue::String(text) => take_words(budget, text.as_str().len() / 32 + 3),
        AbiValue::FixedArray(items) => spend_words_of_items(value, items, budget),
        AbiValue::Array(items) => spend_words_of_items(value, items, budget),
        AbiValue::Tuple(items) => spend_words_of_items(value, items, budget),
    }
}

/// What is left of `budget` words once those of the tuple, array or
/// fixed array `whole` with its `items` are taken.
fn spend_words_of_items(whole: &AbiValue, items: &Vec<AbiValue>, budget: usize) -> (rest: Option<
    usize,
>)
    requires
        *whole == AbiValue::Tuple(*items) || *whole == AbiValue::Array(*items) || *whole
            == AbiValue::FixedArray(*items),
    ensures
        encoded_words(*whole) <= budget ==> rest == Some((budget - encoded_words(*whole)) as usize),
        encoded_words(*whole) > budget ==> rest is None,
    decreases whole, 0int,
{
    assert(encoded_words(*whole) == 2 + words_of_first(items@, items@.len()));
    if budget < 2 {
        return None;
    }
    let mut rest: usize = budget - 2;
    let mut i: usize = 0;
    while i < items.len()
        invariant
            i <= items@.len(),
            *whole == AbiValue::Tuple(*items) || *whole == AbiValue::Array(*items) || *whole
                == AbiValue::FixedArray(*items),
            encoded_words(*whole) == 2 + words_of_first(items@, items@.len()),
            2 + words_of_first(items@, i as nat) + rest == budget,
        decreases items@.len() - i,
    {
        proof {
            lemma_item_is_smaller(*whole, *items, i as int);
            lemma_words_grow(items@, (i + 1) as nat, items@.len());
        }
        match spend_words(&items[i], rest) {
            Some(left) => {
                rest = left;
            },
            None => {
                return None;
            },
        }
        i += 1;
    }
    Some(rest)
}

/// Tests `arguments_small`.
pub fn check_arguments_small(args: &Vec<AbiValue>) -> (small: bool)
    ensures
        small == arguments_small(args@),
{
    let mut rest: usize = MAX_ENCODED_WORDS;
    let mut i: usize = 0;
    while i < args.len()
        invariant
            i <= args@.len(),
            words_of_first(args@, i as nat) + rest == MAX_ENCODED_WORDS,
        decreases args@.len() - i,
    {
        proof {
            lemma_words_grow(args@, (i + 1) as nat, args@.len());
        }
        match spend_words(&args[i], rest) {
            Some(left) => {
                rest = left;
            },
            None => {
                return false;
            },
        }
        i += 1;
    }
    true
}

/// A tuple argument with more components than the tuple parameter at its
/// place does not fit, wherever in the arguments it stands on its own
/// level; and a value of another shape than its parameter is not looked into.
pub proof fn longer_tuple_does_not_fit(items: Vec<AbiValue>, kinds: Vec<AbiType>, other: AbiType)
    requires
        !(other is Tuple),
    ensures
        items@.len() > kinds@.len() ==> !tuples_fit(AbiValue::Tuple(items), AbiType::Tuple(kinds)),
        items@.len() > kinds@.len() ==> !arguments_fit(
            seq![AbiValue::Tuple(items)],
            Some(seq![AbiType::Tuple(kinds)]),
        ),
        tuples_fit(AbiValue::Tuple(items), other),
{
    if items@.len() > kinds@.len() {
        let args = seq![AbiValue::Tuple(items)];
        let ks = seq![AbiType::Tuple(kinds)];
        assert(args[0] == AbiValue::Tuple(items));
        assert(ks[0] == AbiType::Tuple(kinds));
        assert(!tuples_fit(args[0], ks[0]));
    }
}

} // verus!
