use image_host::store::Statement;
use image_host::tagging::{
    answer_refused, answer_succeeded, auto_tag_image, generated_tags, select_tags, TagQueue,
    TaggingError, GENERATE_URL,
};

#[test]
fn request_asks_the_vision_model() {
    let request = auto_tag_image(b"\x89PNG\r\n\x1a\n");
    assert_eq!(GENERATE_URL, "http://127.0.0.1:11434/api/generate");
    assert_eq!(request.model, "llava");
    assert_eq!(
        request.prompt,
        "Analyze this image and return a comma-separated list of 3-5 very short, single-word \
         descriptive tags. No uppercase letters. For example: cat, animal, pet, cute"
    );
    assert!(!request.stream);
    assert_eq!(request.images, vec!["iVBORw0KGgo="]);
}

#[test]
fn image_is_sent_in_padded_base64() {
    let encoded = |data: &[u8]| auto_tag_image(data).images.remove(0);
    assert_eq!(encoded(b""), "");
    assert_eq!(encoded(b"f"), "Zg==");
    assert_eq!(encoded(b"fo"), "Zm8=");
    assert_eq!(encoded(b"foo"), "Zm9v");
    assert_eq!(encoded(b"foob"), "Zm9vYg==");
    assert_eq!(encoded(b"\xfb\xff\xbf"), "+/+/");
}

#[test]
fn only_the_two_hundreds_succeed() {
    for (status, success) in [(199, false), (200, true), (204, true), (299, true), (300, false), (500, false)] {
        assert_eq!(answer_succeeded(status), success);
    }
}

#[test]
fn refusal_keeps_the_status_and_the_body() {
    assert!(matches!(
        answer_refused(404, Some("no such model".to_string())),
        TaggingError::Refused { status: 404, body } if body == "no such model"
    ));
    assert!(matches!(
        answer_refused(500, None),
        TaggingError::Refused { status: 500, body } if body == "Unknown error body"
    ));
}

#[test]
fn refusal_is_reported_with_its_status_written_out() {
    let refused = |status, body: &str| answer_refused(status, Some(body.to_string()));
    assert_eq!(
        refused(500, "boom").message(),
        Some("Ollama API error 500 Internal Server Error: boom".to_string())
    );
    assert_eq!(
        refused(404, "").message(),
        Some("Ollama API error 404 Not Found: ".to_string())
    );
    assert_eq!(
        refused(999, "x").message(),
        Some("Ollama API error 999 <unknown status code>: x".to_string())
    );
    assert_eq!(refused(99, "x").message(), None);
    assert_eq!(refused(1000, "x").message(), None);
    assert_eq!(refused(500, "x").text("a status"), "Ollama API error a status: x");
}

#[test]
fn malformed_answer_is_reported() {
    let error = generated_tags(b"{").unwrap_err();
    assert_eq!(error.message(), Some("error decoding response body".to_string()));
}

#[test]
fn answer_is_split_trimmed_and_lower_case() {
    assert_eq!(select_tags("cat, animal, pet, cute"), vec!["cat", "animal", "pet", "cute"]);
    assert_eq!(select_tags(" Cat,DOG\n"), vec!["cat", "dog"]);
}

#[test]
fn at_most_five_tags_are_taken() {
    assert_eq!(select_tags("a,b,c,d,e,f,g"), vec!["a", "b", "c", "d", "e"]);
    assert_eq!(select_tags("a b,a,,b,x y z,c,d,e,f"), vec!["a", "b", "c", "d", "e"]);
}

#[test]
fn empty_long_and_spaced_words_are_left_out() {
    assert!(select_tags("").is_empty());
    assert!(select_tags(" , ,").is_empty());
    assert!(select_tags("This image shows a cat.").is_empty());
    assert_eq!(select_tags("aaaaaaaaaaaaaaaaaaa"), vec!["aaaaaaaaaaaaaaaaaaa"]);
    assert!(select_tags("aaaaaaaaaaaaaaaaaaaa").is_empty());
    assert!(select_tags("éééééééééé").is_empty());
    assert_eq!(select_tags("ééééééééé"), vec!["ééééééééé"]);
}

#[test]
fn tags_are_read_from_the_response_member() {
    assert_eq!(generated_tags(br#"{"response": "cat, pet"}"#).unwrap(), vec!["cat", "pet"]);
    assert_eq!(generated_tags("{\"response\": \"Käse\"}".as_bytes()).unwrap(), vec!["käse"]);
    for body in ["{}", "[]", "null", "3", r#"{"response": 3}"#, r#"{"Response": "cat"}"#] {
        assert!(generated_tags(body.as_bytes()).unwrap().is_empty());
    }
}

#[test]
fn body_that_is_not_json_is_malformed() {
    for body in ["", "cat, pet", "{", r#"{"response": "cat"} x"#] {
        assert!(matches!(generated_tags(body.as_bytes()), Err(TaggingError::Malformed)));
    }
}

#[test]
fn queue_hands_its_tags_out_in_order() {
    let mut queue = TagQueue { image_id: 12, tags: vec!["cat".to_string(), "pet".to_string()] };
    for expected in ["cat", "pet"] {
        let (query, link) = queue.next().unwrap();
        assert!(matches!(query, Statement::AddTag { name } if name == expected));
        assert_eq!(link.image_id, 12);
        assert_eq!(link.name, expected);
    }
    assert!(queue.next().is_none());
    assert!(queue.next().is_none());
}
