use tokenizer_bridge::encoding::{
    encoding_free, encoding_get_attention_mask, encoding_get_ids, encoding_get_length,
    encoding_get_offsets, encoding_get_overflowing, encoding_get_special_tokens_mask,
    encoding_get_tokens, encoding_get_type_ids, free_c_char_array, free_encoding_array, CEncoding,
};
use tokenizer_bridge::tokenizer::{
    free_rstring, pretrained_request, tokenizer_decode, tokenizer_encode, tokenizer_free,
    tokenizer_from_buffer, CFromPretrainedParameters,
};

fn word_level_json() -> Vec<u8> {
    let json = "{\"version\":\"1.0\",\"truncation\":null,\"padding\":null,\"added_tokens\":[],\"normalizer\":null,\"pre_tokenizer\":{\"type\":\"Whitespace\"},\"post_processor\":null,\"decoder\":null,\"model\":{\"type\":\"WordLevel\",\"vocab\":{\"Hello\":0,\"world\":1,\"[UNK]\":2,\"foo\":3,\"bar\":4},\"unk_token\":\"[UNK]\"}}";
    json.as_bytes().to_vec()
}

fn truncating_word_piece_json() -> Vec<u8> {
    let json = "{\"version\":\"1.0\",\"truncation\":{\"direction\":\"Right\",\"max_length\":1,\"strategy\":\"LongestFirst\",\"stride\":0},\"padding\":null,\"added_tokens\":[],\"normalizer\":null,\"pre_tokenizer\":{\"type\":\"Whitespace\"},\"post_processor\":null,\"decoder\":null,\"model\":{\"type\":\"WordPiece\",\"unk_token\":\"[UNK]\",\"continuing_subword_prefix\":\"##\",\"max_input_chars_per_word\":100,\"vocab\":{\"foo\":0,\"##bar\":1,\"[UNK]\":2}}}";
    json.as_bytes().to_vec()
}

#[test]
fn test_invalid_tokenizer_from_buffer() {
    let buffer: Vec<u8> = vec![1, 2, 3, 4];
    let handle = tokenizer_from_buffer(Some(&buffer));
    assert!(handle.is_none());
}

#[test]
fn test_valid_tokenizer_from_buffer() {
    let buffer = word_level_json();
    let handle = tokenizer_from_buffer(Some(&buffer));
    assert!(
        handle.is_some(),
        "Tokenizer handle should not be null for valid JSON"
    );
    let encoding = tokenizer_encode(handle.as_ref(), "Hello world", true);
    assert!(encoding.is_some());
    encoding_free(encoding);
    tokenizer_free(handle);
}

#[test]
fn test_tokenizer_null_inputs() {
    let request = pretrained_request(None, None);
    assert!(request.is_none());

    let handle = tokenizer_from_buffer(None);
    assert!(handle.is_none());
}

#[test]
fn test_tokenizer_encode_decode() {
    let buffer = word_level_json();
    let handle = tokenizer_from_buffer(Some(&buffer));
    assert!(handle.is_some());

    let encoding = tokenizer_encode(handle.as_ref(), "Hello world", true);
    assert!(encoding.is_some());

    let ids = encoding_get_ids(encoding.as_ref());
    assert!(ids.is_some());

    let decoded = tokenizer_decode(handle.as_ref(), ids.unwrap(), true);
    assert!(decoded.is_some());

    encoding_free(encoding);
    free_rstring(decoded);
    tokenizer_free(handle);
}

#[test]
fn test_encode_exact_values() {
    let buffer = word_level_json();
    let handle = tokenizer_from_buffer(Some(&buffer));
    let encoding = tokenizer_encode(handle.as_ref(), "Hello world", true);
    let enc = encoding.as_ref();

    assert_eq!(encoding_get_length(enc), 2);
    assert_eq!(encoding_get_ids(enc), Some(&vec![0u32, 1]));
    assert_eq!(encoding_get_type_ids(enc), Some(&vec![0u32, 0]));
    assert_eq!(encoding_get_special_tokens_mask(enc), Some(&vec![0u32, 0]));
    assert_eq!(encoding_get_attention_mask(enc), Some(&vec![1u32, 1]));
    assert_eq!(encoding_get_offsets(enc), Some(&vec![(0usize, 5usize), (6, 11)]));

    let tokens = encoding_get_tokens(enc);
    assert_eq!(
        tokens,
        Some(vec![String::from("Hello"), String::from("world")])
    );

    free_c_char_array(tokens);
    encoding_free(encoding);
    tokenizer_free(handle);
}

#[test]
fn test_decode_round_trip() {
    let buffer = word_level_json();
    let handle = tokenizer_from_buffer(Some(&buffer));
    let encoding = tokenizer_encode(handle.as_ref(), "Hello world foo bar", true);
    let ids = encoding_get_ids(encoding.as_ref()).unwrap();
    let decoded = tokenizer_decode(handle.as_ref(), ids, true);
    assert_eq!(decoded, Some(String::from("Hello world foo bar")));
    free_rstring(decoded);
    encoding_free(encoding);
    tokenizer_free(handle);
}

#[test]
fn test_parallel_sequence_lengths() {
    let buffer = word_level_json();
    let handle = tokenizer_from_buffer(Some(&buffer));
    let encoding = tokenizer_encode(handle.as_ref(), "Hello world foo bar", true);
    let enc = encoding.as_ref();

    let n = encoding_get_length(enc);
    assert!(n > 0);
    assert_eq!(encoding_get_ids(enc).unwrap().len(), n);
    assert_eq!(encoding_get_type_ids(enc).unwrap().len(), n);
    assert_eq!(encoding_get_special_tokens_mask(enc).unwrap().len(), n);
    assert_eq!(encoding_get_attention_mask(enc).unwrap().len(), n);
    assert_eq!(encoding_get_offsets(enc).unwrap().len(), n);

    let tokens = encoding_get_tokens(enc).unwrap();
    assert_eq!(tokens.len(), n);
    for token in &tokens {
        assert!(!token.is_empty());
    }

    free_c_char_array(Some(tokens));
    encoding_free(encoding);
    tokenizer_free(handle);
}

#[test]
fn test_overflow_fragments() {
    let buffer = truncating_word_piece_json();
    let handle = tokenizer_from_buffer(Some(&buffer));
    assert!(handle.is_some());

    let encoding = tokenizer_encode(handle.as_ref(), "foobar", true);
    assert_eq!(encoding_get_length(encoding.as_ref()), 1);
    assert_eq!(encoding_get_ids(encoding.as_ref()), Some(&vec![0u32]));

    let overflow = encoding_get_overflowing(encoding.as_ref());
    assert!(overflow.is_some());
    let fragments = overflow.unwrap();
    assert_eq!(fragments.len(), 1);

    let fragment = Some(&fragments[0]);
    assert_eq!(encoding_get_length(fragment), 1);
    assert_eq!(encoding_get_ids(fragment), Some(&vec![1u32]));
    let fragment_tokens = encoding_get_tokens(fragment);
    assert_eq!(fragment_tokens, Some(vec![String::from("##bar")]));
    let nested = encoding_get_overflowing(fragment);
    assert_eq!(nested.map(|v| v.len()), Some(0));

    free_c_char_array(fragment_tokens);
    free_encoding_array(Some(fragments));
    encoding_free(encoding);
    tokenizer_free(handle);
}

#[test]
fn test_release_null_handles() {
    tokenizer_free(None);
    encoding_free(None);
    free_rstring(None);
    free_c_char_array(None);
    free_encoding_array(None);
}

#[test]
fn test_null_encoding_accessors() {
    assert_eq!(encoding_get_length(None), 0);
    assert!(encoding_get_ids(None).is_none());
    assert!(encoding_get_type_ids(None).is_none());
    assert!(encoding_get_special_tokens_mask(None).is_none());
    assert!(encoding_get_attention_mask(None).is_none());
    assert!(encoding_get_offsets(None).is_none());
    assert!(encoding_get_tokens(None).is_none());
    assert!(encoding_get_overflowing(None).is_none());
}

#[test]
fn test_encode_null_handle() {
    let encoding = tokenizer_encode(None, "Hello world", true);
    assert!(encoding.is_none());
}

#[test]
fn test_decode_null_handle() {
    let ids: Vec<u32> = vec![0, 1];
    let decoded = tokenizer_decode(None, &ids, true);
    assert!(decoded.is_none());
}

#[test]
fn test_pretrained_request_marshaling() {
    let name = String::from("bert-base-uncased");

    let bare = pretrained_request(Some(&name), None);
    let bare = bare.unwrap();
    assert_eq!(bare.name, "bert-base-uncased");
    assert!(bare.params.is_none());

    let params = CFromPretrainedParameters {
        revision: None,
        token: None,
    };
    let defaulted = pretrained_request(Some(&name), Some(&params)).unwrap();
    let resolved = defaulted.params.unwrap();
    assert_eq!(resolved.revision, "main");
    assert!(resolved.token.is_none());

    let params = CFromPretrainedParameters {
        revision: Some(String::from("v2")),
        token: Some(String::from("auth-token-value")),
    };
    let kept = pretrained_request(Some(&name), Some(&params)).unwrap();
    let resolved = kept.params.unwrap();
    assert_eq!(resolved.revision, "v2");
    assert_eq!(resolved.token.as_deref(), Some("auth-token-value"));
}

#[test]
fn test_transferred_tokens_outlive_encoding() {
    let buffer = word_level_json();
    let handle = tokenizer_from_buffer(Some(&buffer));
    let encoding = tokenizer_encode(handle.as_ref(), "Hello world", true);
    let tokens = encoding_get_tokens(encoding.as_ref()).unwrap();
    encoding_free(encoding);
    tokenizer_free(handle);
    assert_eq!(tokens, vec![String::from("Hello"), String::from("world")]);
    free_c_char_array(Some(tokens));
}

#[test]
fn test_unknown_words_map_to_unk() {
    let buffer = word_level_json();
    let handle = tokenizer_from_buffer(Some(&buffer));
    let encoding = tokenizer_encode(handle.as_ref(), "Hello stranger", true);
    assert_eq!(encoding_get_ids(encoding.as_ref()), Some(&vec![0u32, 2]));
    let tokens = encoding_get_tokens(encoding.as_ref());
    assert_eq!(
        tokens,
        Some(vec![String::from("Hello"), String::from("[UNK]")])
    );
    free_c_char_array(tokens);
    encoding_free(encoding);
    tokenizer_free(handle);
}

#[test]
fn test_accessors_on_hand_built_encoding() {
    let encoding = CEncoding {
        ids: vec![7, 8, 9],
        type_ids: vec![0, 0, 1],
        tokens: vec![String::from("a"), String::from("b"), String::from("c")],
        special_tokens_mask: vec![1, 0, 1],
        attention_mask: vec![1, 1, 1],
        offsets: vec![(0, 1), (2, 3), (4, 5)],
        overflowing: Vec::new(),
    };
    assert_eq!(encoding_get_length(Some(&encoding)), 3);
    assert_eq!(encoding_get_ids(Some(&encoding)), Some(&vec![7u32, 8, 9]));
    let overflow = encoding_get_overflowing(Some(&encoding)).unwrap();
    assert!(overflow.is_empty());
    free_encoding_array(Some(overflow));
    encoding_free(Some(encoding));
}


#[test]
fn test_unsafe_truncation_config_encode_null() {
    let json = "{\"version\":\"1.0\",\"truncation\":{\"direction\":\"Right\",\"max_length\":2,\"strategy\":\"LongestFirst\",\"stride\":5},\"padding\":null,\"added_tokens\":[],\"normalizer\":null,\"pre_tokenizer\":{\"type\":\"Whitespace\"},\"post_processor\":null,\"decoder\":null,\"model\":{\"type\":\"WordLevel\",\"vocab\":{\"Hello\":0,\"world\":1,\"[UNK]\":2,\"foo\":3,\"bar\":4},\"unk_token\":\"[UNK]\"}}";
    let buffer = json.as_bytes().to_vec();
    let handle = tokenizer_from_buffer(Some(&buffer));
    assert!(handle.is_some());

    let encoding = tokenizer_encode(handle.as_ref(), "Hello world foo bar", true);
    assert!(encoding.is_none());

    encoding_free(encoding);
    tokenizer_free(handle);
}
