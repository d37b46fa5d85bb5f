//! Tokenization results and their accessors.
//!
//! A [`CEncoding`] owns one tokenization result: six parallel sequences with
//! one entry per produced token, plus the overflow fragments produced when the
//! input was truncated to a maximum length. Accessors either borrow a view
//! into the result (`ids`, `type_ids`, masks, `offsets`) or transfer fresh
//! copies to the caller (`tokens`, `overflowing`); every accessor answers a
//! `None` handle with its zero sentinel instead of failing.

use vstd::prelude::*;

verus! {

/// Declares the engine's result type so that values of it can cross through
/// this crate; the crate never looks inside one except through the trusted
/// accessors below.
#[verifier::external_type_specification]
#[verifier::external_body]
pub struct ExEncoding(tokenizers::Encoding);

/// The number of tokens an engine result holds. Each of the engine's parallel
/// sequences has exactly this many entries, one per produced token.
pub uninterp spec fn engine_token_count(e: tokenizers::Encoding) -> nat;

/// Holds of every result value the engine itself produces: the engine moves
/// its six sequences in lockstep, so they stay parallel. The engine's own
/// public constructors also admit hand-built values with unequal sequences;
/// those never satisfy this predicate, and the accessors below are stated
/// only for engine-produced values.
pub uninterp spec fn engine_parallel(e: tokenizers::Encoding) -> bool;

/// Relies on `Encoding::get_ids`: one id per produced token.
#[verifier::external_body]
fn engine_ids(e: &tokenizers::Encoding) -> (r: Vec<u32>)
    requires
        engine_parallel(*e),
    ensures
        r@.len() == engine_token_count(*e),
{
    e.get_ids().to_vec()
}

/// Relies on `Encoding::get_type_ids`: one type id per produced token.
#[verifier::external_body]
fn engine_type_ids(e: &tokenizers::Encoding) -> (r: Vec<u32>)
    requires
        engine_parallel(*e),
    ensures
        r@.len() == engine_token_count(*e),
{
    e.get_type_ids().to_vec()
}

/// Relies on `Encoding::get_tokens`: one token string per produced token.
#[verifier::external_body]
fn engine_tokens(e: &tokenizers::Encoding) -> (r: Vec<String>)
    requires
        engine_parallel(*e),
    ensures
        r@.len() == engine_token_count(*e),
{
    e.get_tokens().to_vec()
}

/// Relies on `Encoding::get_special_tokens_mask`: one flag per produced token.
#[verifier::external_body]
fn engine_special_tokens_mask(e: &tokenizers::Encoding) -> (r: Vec<u32>)
    requires
        engine_parallel(*e),
    ensures
        r@.len() == engine_token_count(*e),
{
    e.get_special_tokens_mask().to_vec()
}

/// Relies on `Encoding::get_attention_mask`: one flag per produced token.
#[verifier::external_body]
fn engine_attention_mask(e: &tokenizers::Encoding) -> (r: Vec<u32>)
    requires
        engine_parallel(*e),
    ensures
        r@.len() == engine_token_count(*e),
{
    e.get_attention_mask().to_vec()
}

/// Relies on `Encoding::get_offsets`: one source-text span per produced token.
#[verifier::external_body]
fn engine_offsets(e: &tokenizers::Encoding) -> (r: Vec<(usize, usize)>)
    requires
        engine_parallel(*e),
    ensures
        r@.len() == engine_token_count(*e),
{
    e.get_offsets().to_vec()
}

/// Relies on `Encoding::get_overflowing`: the fragments produced when the
/// input was truncated, each itself a full engine result. Truncation builds
/// every fragment from the parent's sequences in lockstep, so the fragments
/// of an engine-produced result are engine-produced themselves.
#[verifier::external_body]
fn engine_overflowing(e: &tokenizers::Encoding) -> (r: Vec<tokenizers::Encoding>)
    ensures
        engine_parallel(*e) ==> forall|i: int|
            0 <= i < r@.len() ==> #[trigger] engine_parallel(r@[i]),
{
    e.get_overflowing().clone()
}

/// One tokenization result, exclusively owned by its holder.
pub struct CEncoding {
    pub ids: Vec<u32>,
    pub type_ids: Vec<u32>,
    pub tokens: Vec<String>,
    pub special_tokens_mask: Vec<u32>,
    pub attention_mask: Vec<u32>,
    pub offsets: Vec<(usize, usize)>,
    pub overflowing: Vec<CEncoding>,
}

impl CEncoding {
    /// All six parallel sequences hold one entry per produced token.
    pub open spec fn parallel(self) -> bool {
        &&& self.type_ids@.len() == self.ids@.len()
        &&& self.tokens@.len() == self.ids@.len()
        &&& self.special_tokens_mask@.len() == self.ids@.len()
        &&& self.attention_mask@.len() == self.ids@.len()
        &&& self.offsets@.len() == self.ids@.len()
    }

    /// A well-formed result: its own sequences are parallel, and each overflow
    /// fragment is itself parallel and carries no further nesting. The engine
    /// produces overflow fragments with empty overflow of their own, so one
    /// level of nesting covers every result that crosses this boundary.
    pub open spec fn wf(self) -> bool {
        &&& self.parallel()
        &&& forall|i: int|
            0 <= i < self.overflowing@.len() ==> {
                &&& (#[trigger] self.overflowing@[i]).parallel()
                &&& self.overflowing@[i].overflowing@.len() == 0
            }
    }

    /// Two results hold the same observable content in their own six
    /// sequences (overflow fragments aside).
    pub open spec fn same_content(self, other: CEncoding) -> bool {
        &&& self.ids@ == other.ids@
        &&& self.type_ids@ == other.type_ids@
        &&& self.tokens@ == other.tokens@
        &&& self.special_tokens_mask@ == other.special_tokens_mask@
        &&& self.attention_mask@ == other.attention_mask@
        &&& self.offsets@ == other.offsets@
    }

    /// Takes one engine result across the boundary: copies every sequence out
    /// of the engine's storage, fragments included, keeping one length entry
    /// per token the engine produced.
    pub fn new(encoding: tokenizers::Encoding) -> (r: CEncoding)
        requires
            engine_parallel(encoding),
        ensures
            r.wf(),
            r.ids@.len() == engine_token_count(encoding),
    {
        let mut top = convert_one(&encoding);
        let fragments = engine_overflowing(&encoding);
        let mut overflowing: Vec<CEncoding> = Vec::new();
        let mut i: usize = 0;
        while i < fragments.len()
            invariant
                overflowing@.len() == i as int,
                forall|k: int|
                    0 <= k < fragments@.len() ==> #[trigger] engine_parallel(fragments@[k]),
                forall|j: int|
                    0 <= j < i as int ==> {
                        &&& (#[trigger] overflowing@[j]).parallel()
                        &&& overflowing@[j].overflowing@.len() == 0
                    },
            decreases fragments@.len() - i as int,
        {
            let fragment = convert_one(&fragments[i]);
            overflowing.push(fragment);
            i = i + 1;
        }
        top.overflowing = overflowing;
        top
    }
}

/// Releases one tokenization result together with every not-yet-extracted
/// owned sequence. An absent result is a safe no-op. Previously transferred
/// copies are untouched: they are already the caller's to release.
pub fn encoding_free(encoding: Option<CEncoding>) {
    let _ = encoding;
}

/// The number of produced tokens, or the zero sentinel for an absent result.
pub fn encoding_get_length(encoding: Option<&CEncoding>) -> (n: usize)
    ensures
        match encoding {
            Some(e) => n == e.ids@.len(),
            None => n == 0,
        },
{
    match encoding {
        Some(e) => e.ids.len(),
        None => 0,
    }
}

/// Borrowed view of the token ids; valid only while the result lives.
pub fn encoding_get_ids<'a>(encoding: Option<&'a CEncoding>) -> (r: Option<&'a Vec<u32>>)
    ensures
        match encoding {
            Some(e) => r matches Some(v) && v@ == e.ids@,
            None => r is None,
        },
{
    match encoding {
        Some(e) => Some(&e.ids),
        None => None,
    }
}

/// Borrowed view of the type ids; valid only while the result lives.
pub fn encoding_get_type_ids<'a>(encoding: Option<&'a CEncoding>) -> (r: Option<&'a Vec<u32>>)
    ensures
        match encoding {
            Some(e) => r matches Some(v) && v@ == e.type_ids@,
            None => r is None,
        },
{
    match encoding {
        Some(e) => Some(&e.type_ids),
        None => None,
    }
}

/// Borrowed view of the special-token mask; valid only while the result lives.
pub fn encoding_get_special_tokens_mask<'a>(encoding: Option<&'a CEncoding>) -> (r: Option<
    &'a Vec<u32>,
>)
    ensures
        match encoding {
            Some(e) => r matches Some(v) && v@ == e.special_tokens_mask@,
            None => r is None,
        },
{
    match encoding {
        Some(e) => Some(&e.special_tokens_mask),
        None => None,
    }
}

/// Borrowed view of the attention mask; valid only while the result lives.
pub fn encoding_get_attention_mask<'a>(encoding: Option<&'a CEncoding>) -> (r: Option<
    &'a Vec<u32>,
>)
    ensures
        match encoding {
            Some(e) => r matches Some(v) && v@ == e.attention_mask@,
            None => r is None,
        },
{
    match encoding {
        Some(e) => Some(&e.attention_mask),
        None => None,
    }
}

/// Borrowed view of the source-text spans; valid only while the result lives.
pub fn encoding_get_offsets<'a>(encoding: Option<&'a CEncoding>) -> (r: Option<
    &'a Vec<(usize, usize)>,
>)
    ensures
        match encoding {
            Some(e) => r matches Some(v) && v@ == e.offsets@,
            None => r is None,
        },
{
    match encoding {
        Some(e) => Some(&e.offsets),
        None => None,
    }
}

/// Transfers a fresh copy of the token strings: ownership of the returned
/// strings moves to the caller, fully decoupled from the result's lifetime.
pub fn encoding_get_tokens(encoding: Option<&CEncoding>) -> (r: Option<Vec<String>>)
    ensures
        match encoding {
            Some(e) => r matches Some(v) && v@ == e.tokens@,
            None => r is None,
        },
{
    match encoding {
        Some(e) => Some(copy_strings(&e.tokens)),
        None => None,
    }
}

/// Transfers fresh copies of the overflow fragments: one independent,
/// fully-owned result per fragment, decoupled from the parent's lifetime.
pub fn encoding_get_overflowing(encoding: Option<&CEncoding>) -> (r: Option<Vec<CEncoding>>)
    ensures
        match encoding {
            Some(e) => r matches Some(v) && {
                &&& v@.len() == e.overflowing@.len()
                &&& forall|i: int|
                    0 <= i < v@.len() ==> {
                        &&& (#[trigger] v@[i]).same_content(e.overflowing@[i])
                        &&& v@[i].overflowing@.len() == 0
                    }
                &&& e.wf() ==> forall|i: int| 0 <= i < v@.len() ==> (#[trigger] v@[i]).wf()
            },
            None => r is None,
        },
{
    match encoding {
        Some(e) => {
            let mut copies: Vec<CEncoding> = Vec::new();
            let mut i: usize = 0;
            while i < e.overflowing.len()
                invariant
                    copies@.len() == i as int,
                    i as int <= e.overflowing@.len(),
                    forall|j: int|
                        0 <= j < i as int ==> {
                            &&& (#[trigger] copies@[j]).same_content(e.overflowing@[j])
                            &&& copies@[j].overflowing@.len() == 0
                        },
                decreases e.overflowing@.len() - i as int,
            {
                let fragment = copy_flat(&e.overflowing[i]);
                copies.push(fragment);
                i = i + 1;
            }
            Some(copies)
        },
        None => None,
    }
}

/// Releases a transferred array of token strings, each element and then the
/// array's own storage. An absent array is a safe no-op.
pub fn free_c_char_array(array: Option<Vec<String>>) {
    let _ = array;
}

/// Releases a transferred array of overflow results in one call; ownership of
/// the whole storage belongs to this call alone, never to per-element
/// releases. An absent array is a safe no-op.
pub fn free_encoding_array(array: Option<Vec<CEncoding>>) {
    let _ = array;
}

/// Every result the engine hands across the boundary carries six parallel
/// sequences of equal length: ids, tokens, type ids, special-token mask,
/// attention mask and offsets each hold one entry per produced token.
pub proof fn lemma_parallel_sequences(e: CEncoding)
    requires
        e.wf(),
    ensures
        e.tokens@.len() == e.ids@.len(),
        e.type_ids@.len() == e.ids@.len(),
        e.special_tokens_mask@.len() == e.ids@.len(),
        e.attention_mask@.len() == e.ids@.len(),
        e.offsets@.len() == e.ids@.len(),
{
}

/// A fresh copy of a string sequence, element for element.
fn copy_strings(v: &Vec<String>) -> (r: Vec<String>)
    ensures
        r@ == v@,
{
    let mut r: Vec<String> = Vec::new();
    let mut i: usize = 0;
    while i < v.len()
        invariant
            i as int <= v@.len(),
            r@ == v@.subrange(0, i as int),
        decreases v@.len() - i as int,
    {
        r.push(v[i].clone());
        i = i + 1;
    }
    proof {
        assert(r@ =~= v@);
    }
    r
}

/// A fresh copy of an id or mask sequence, element for element.
fn copy_u32s(v: &Vec<u32>) -> (r: Vec<u32>)
    ensures
        r@ == v@,
{
    let mut r: Vec<u32> = Vec::new();
    let mut i: usize = 0;
    while i < v.len()
        invariant
            i as int <= v@.len(),
            r@ == v@.subrange(0, i as int),
        decreases v@.len() - i as int,
    {
        r.push(v[i]);
        i = i + 1;
    }
    proof {
        assert(r@ =~= v@);
    }
    r
}

/// A fresh copy of a span sequence, element for element.
fn copy_offsets(v: &Vec<(usize, usize)>) -> (r: Vec<(usize, usize)>)
    ensures
        r@ == v@,
{
    let mut r: Vec<(usize, usize)> = Vec::new();
    let mut i: usize = 0;
    while i < v.len()
        invariant
            i as int <= v@.len(),
            r@ == v@.subrange(0, i as int),
        decreases v@.len() - i as int,
    {
        r.push(v[i]);
        i = i + 1;
    }
    proof {
        assert(r@ =~= v@);
    }
    r
}

/// A fresh, fully-owned copy of one result's own six sequences; the copy
/// carries no overflow fragments.
fn copy_flat(e: &CEncoding) -> (r: CEncoding)
    ensures
        r.same_content(*e),
        r.overflowing@.len() == 0,
{
    CEncoding {
        ids: copy_u32s(&e.ids),
        type_ids: copy_u32s(&e.type_ids),
        tokens: copy_strings(&e.tokens),
        special_tokens_mask: copy_u32s(&e.special_tokens_mask),
        attention_mask: copy_u32s(&e.attention_mask),
        offsets: copy_offsets(&e.offsets),
        overflowing: Vec::new(),
    }
}

/// Copies the six parallel sequences of one engine result; the copy carries
/// no overflow fragments of its own.
fn convert_one(e: &tokenizers::Encoding) -> (r: CEncoding)
    requires
        engine_parallel(*e),
    ensures
        r.parallel(),
        r.overflowing@.len() == 0,
        r.ids@.len() == engine_token_count(*e),
{
    CEncoding {
        ids: engine_ids(e),
        type_ids: engine_type_ids(e),
        tokens: engine_tokens(e),
        special_tokens_mask: engine_special_tokens_mask(e),
        attention_mask: engine_attention_mask(e),
        offsets: engine_offsets(e),
        overflowing: Vec::new(),
    }
}

} // verus!
