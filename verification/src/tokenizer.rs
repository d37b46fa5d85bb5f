//! Engine handles and the operations on them.

use vstd::prelude::*;
use crate::encoding::CEncoding;
use crate::encoding::engine_parallel;

verus! {

/// Whether the engine deserializes the given bytes into a tokenizer:
/// deserialization is a deterministic function of the bytes alone.
pub uninterp spec fn engine_parses(bytes: Seq<u8>) -> bool;

/// Whether the engine's `encode` succeeds for this engine, text and flag.
/// The error paths of encoding depend on the text and the engine's
/// configuration alone, so success is a function of the three arguments,
/// even for models whose token choice is randomized.
pub uninterp spec fn engine_encode_ok(
    t: tokenizers::Tokenizer,
    text: Seq<char>,
    add_special_tokens: bool,
) -> bool;

/// What the engine's `decode` returns for this engine, id sequence and flag:
/// a deterministic vocabulary walk, `None` exactly where the engine fails.
pub uninterp spec fn engine_decode_of(
    t: tokenizers::Tokenizer,
    ids: Seq<u32>,
    skip_special_tokens: bool,
) -> Option<Seq<char>>;

/// The engine's configured truncation, as its stride and maximum length.
pub uninterp spec fn engine_truncation_of(t: tokenizers::Tokenizer) -> Option<(usize, usize)>;

/// How many sentinel tokens the engine's post-processor would add.
pub uninterp spec fn engine_added_count(t: tokenizers::Tokenizer, is_pair: bool) -> usize;

/// A truncation configuration on which the engine's `encode` returns for
/// every text. The engine accepts serialized configurations whose stride is
/// not smaller than the effective maximum length (the configured maximum
/// less the sentinel tokens to add); on such a configuration `encode` aborts
/// once a text is long enough to truncate, so those are kept away from it.
pub open spec fn encode_config_safe(t: tokenizers::Tokenizer, add_special_tokens: bool) -> bool {
    match engine_truncation_of(t) {
        Some(p) => {
            let n = if add_special_tokens {
                engine_added_count(t, false)
            } else {
                0usize
            };
            &&& n <= p.1
            &&& (p.1 - n == 0 || p.0 < p.1 - n)
        },
        None => true,
    }
}

/// Declares the engine type so that a handle can own one; the crate drives it
/// only through the trusted calls below.
#[verifier::external_type_specification]
#[verifier::external_body]
pub struct ExTokenizer(tokenizers::Tokenizer);

/// Owns exactly one engine instance. A caller holds a handle from the
/// constructing call until the matching release; an absent handle is the
/// `None` sentinel.
pub struct TokenizerHandle {
    pub engine: tokenizers::Tokenizer,
}

/// Relies on `Tokenizer::from_bytes`: deserializes an engine description,
/// succeeding exactly when the bytes parse; a failure becomes `None`.
#[verifier::external_body]
fn engine_from_bytes(bytes: &Vec<u8>) -> (r: Option<tokenizers::Tokenizer>)
    ensures
        r is Some <==> engine_parses(bytes@),
{
    tokenizers::Tokenizer::from_bytes(bytes.as_slice()).ok()
}

/// Wraps an engine outcome into a handle: a present engine becomes a live
/// handle owning exactly that engine, an absent engine stays absent.
pub fn handle_from_engine(engine: Option<tokenizers::Tokenizer>) -> (r: Option<TokenizerHandle>)
    ensures
        r is Some <==> engine is Some,
        engine matches Some(t) ==> r matches Some(h) && h.engine == t,
{
    match engine {
        Some(t) => Some(TokenizerHandle { engine: t }),
        None => None,
    }
}

/// Builds an engine from an in-memory serialized description.
///
/// A zero-length buffer is a caller-contract violation and is excluded
/// outright; an absent buffer or malformed bytes answer `None`.
pub fn tokenizer_from_buffer(buffer: Option<&Vec<u8>>) -> (r: Option<TokenizerHandle>)
    requires
        buffer matches Some(b) ==> b@.len() > 0,
    ensures
        buffer is None ==> r is None,
        buffer matches Some(b) ==> (r is Some <==> engine_parses(b@)),
{
    match buffer {
        None => None,
        Some(b) => handle_from_engine(engine_from_bytes(b)),
    }
}

/// Releases a handle. Absent handles are a safe no-op; a present handle and
/// its owned engine are destroyed.
pub fn tokenizer_free(handle: Option<TokenizerHandle>) {
    let _ = handle;
}

/// Relies on `TokenizerImpl::encode`: tokenizes one text; an engine failure
/// becomes `None`. Only success is named: a model with merge dropout draws
/// random numbers, so the produced tokens need not be a function of the
/// arguments, while the error paths are. The engine aborts instead of
/// failing when a truncation stride reaches the effective maximum length --
/// a configuration its deserializer accepts unchecked -- so the `requires`
/// keeps such configurations out.
#[verifier::external_body]
fn engine_encode(engine: &tokenizers::Tokenizer, text: &str, add_special_tokens: bool) -> (r:
    Option<tokenizers::Encoding>)
    requires
        encode_config_safe(*engine, add_special_tokens),
    ensures
        r is Some <==> engine_encode_ok(*engine, text@, add_special_tokens),
        r matches Some(e) ==> engine_parallel(e),
{
    engine.encode(text, add_special_tokens).ok()
}

/// Relies on `TokenizerImpl::get_truncation`: the configured truncation's
/// stride and maximum length, a plain read of the configuration.
#[verifier::external_body]
fn engine_truncation(engine: &tokenizers::Tokenizer) -> (r: Option<(usize, usize)>)
    ensures
        r == engine_truncation_of(*engine),
{
    engine.get_truncation().map(|p| (p.stride, p.max_length))
}

/// Relies on `TokenizerImpl::get_post_processor` and
/// `PostProcessor::added_tokens`: how many sentinel tokens post-processing
/// would add, a plain read of the configuration; none without a processor.
#[verifier::external_body]
fn engine_added_tokens(engine: &tokenizers::Tokenizer, is_pair: bool) -> (r: usize)
    ensures
        r == engine_added_count(*engine, is_pair),
{
    engine.get_post_processor().map_or(0, |p| tokenizers::PostProcessor::added_tokens(p, is_pair))
}

/// Relies on `TokenizerImpl::decode`: reconstructs text from ids by a
/// deterministic vocabulary walk. An id outside the vocabulary is skipped by
/// the engine, not a failure; a failure of the configured decoder becomes
/// `None`.
#[verifier::external_body]
fn engine_decode(engine: &tokenizers::Tokenizer, ids: &Vec<u32>, skip_special_tokens: bool) -> (r:
    Option<String>)
    ensures
        match r {
            Some(s) => engine_decode_of(*engine, ids@, skip_special_tokens) == Some(s@),
            None => engine_decode_of(*engine, ids@, skip_special_tokens) is None,
        },
{
    engine.decode(ids.as_slice(), skip_special_tokens).ok()
}

/// Tokenizes one text against the engine a handle owns.
///
/// An absent handle answers `None`; every engine failure collapses to `None`
/// as well, never distinguished across the boundary. Against a sound
/// configuration the answer is present exactly when the engine's encode
/// succeeds, and is a new, independently owned, well-formed result. A
/// configuration whose truncation stride reaches the effective maximum
/// length would make the engine abort on a long enough text; this function
/// answers every call against such a configuration with `None` instead.
pub fn tokenizer_encode(
    handle: Option<&TokenizerHandle>,
    text: &str,
    add_special_tokens: bool,
) -> (r: Option<CEncoding>)
    ensures
        handle is None ==> r is None,
        handle matches Some(h) ==> {
            if encode_config_safe(h.engine, add_special_tokens) {
                r is Some <==> engine_encode_ok(h.engine, text@, add_special_tokens)
            } else {
                r is None
            }
        },
        r matches Some(enc) ==> enc.wf(),
{
    match handle {
        None => None,
        Some(h) => {
            let safe: bool = match engine_truncation(&h.engine) {
                None => true,
                Some(p) => {
                    let n: usize = if add_special_tokens {
                        engine_added_tokens(&h.engine, false)
                    } else {
                        0
                    };
                    if p.1 < n {
                        false
                    } else if p.1 - n == 0 {
                        true
                    } else {
                        p.0 < p.1 - n
                    }
                },
            };
            if !safe {
                return None;
            }
            match engine_encode(&h.engine, text, add_special_tokens) {
                Some(e) => Some(CEncoding::new(e)),
                None => None,
            }
        },
    }
}

/// Reconstructs text from a sequence of ids.
///
/// A zero-length sequence is a caller-contract violation and is excluded
/// outright. An absent handle answers `None`; a present handle answers
/// exactly what the engine's decode yields for these ids, as a transferred
/// text allocation the caller must release, or `None` where the engine
/// fails.
pub fn tokenizer_decode(
    handle: Option<&TokenizerHandle>,
    ids: &Vec<u32>,
    skip_special_tokens: bool,
) -> (r: Option<String>)
    requires
        ids@.len() > 0,
    ensures
        handle is None ==> r is None,
        handle matches Some(h) ==> match r {
            Some(s) => engine_decode_of(h.engine, ids@, skip_special_tokens) == Some(s@),
            None => engine_decode_of(h.engine, ids@, skip_special_tokens) is None,
        },
{
    match handle {
        None => None,
        Some(h) => engine_decode(&h.engine, ids, skip_special_tokens),
    }
}

/// Releases one transferred text allocation; a safe no-op when absent.
pub fn free_rstring(s: Option<String>) {
    let _ = s;
}

/// The caller's view of the optional construction parameters for a named
/// pretrained engine: both fields may be absent.
pub struct CFromPretrainedParameters {
    pub revision: Option<String>,
    pub token: Option<String>,
}

/// The parameters as the engine's constructor wants them, every absent field
/// defaulted: an absent revision becomes `"main"`, an absent auth token stays
/// absent. User-agent metadata is deliberately not exposed on this path.
pub struct ResolvedPretrainedParameters {
    pub revision: String,
    pub token: Option<String>,
}

impl CFromPretrainedParameters {
    /// Defaults every absent field, leaving present ones untouched.
    pub fn resolve(&self) -> (r: ResolvedPretrainedParameters)
        ensures
            self.revision matches Some(s) ==> r.revision@ == s@,
            self.revision is None ==> r.revision@ == "main"@,
            r.token == self.token,
    {
        let revision = match &self.revision {
            Some(s) => s.clone(),
            None => "main".to_owned(),
        };
        let token = match &self.token {
            Some(t) => Some(t.clone()),
            None => None,
        };
        ResolvedPretrainedParameters { revision, token }
    }
}

/// Everything a named-pretrained construction needs once the caller's
/// nullable inputs have been checked and defaulted.
pub struct PretrainedRequest {
    pub name: String,
    pub params: Option<ResolvedPretrainedParameters>,
}

/// Checks and marshals the inputs of a named-pretrained construction.
///
/// An absent name yields no request at all, so the construction answers the
/// null sentinel without consulting the engine. With a name present, absent
/// parameters stay absent (the engine then applies its own defaults), and
/// present parameters are resolved field by field.
pub fn pretrained_request(
    name: Option<&String>,
    params: Option<&CFromPretrainedParameters>,
) -> (r: Option<PretrainedRequest>)
    ensures
        name is None ==> r is None,
        name matches Some(n) ==> r matches Some(req) && {
            &&& req.name@ == n@
            &&& (params is None ==> req.params is None)
            &&& (params matches Some(p) ==> req.params matches Some(q) && {
                &&& (p.revision matches Some(s) ==> q.revision@ == s@)
                &&& (p.revision is None ==> q.revision@ == "main"@)
                &&& q.token == p.token
            })
        },
{
    match name {
        None => None,
        Some(n) => {
            let resolved = match params {
                Some(p) => Some(p.resolve()),
                None => None,
            };
            Some(PretrainedRequest { name: n.clone(), params: resolved })
        },
    }
}

} // verus!
