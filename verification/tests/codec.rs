use server_fn::error::{
    into_custom, wire_or_text, CustomServerFnError, ErrorKind, ServerFnErrorErr, ServerFnErrorSerde, ViaError,
    WrapError, SERVER_FN_ERROR_HEADER,
};

const KINDS: [ErrorKind; 8] = [
    ErrorKind::Registration,
    ErrorKind::Request,
    ErrorKind::Response,
    ErrorKind::ServerError,
    ErrorKind::Deserialization,
    ErrorKind::Serialization,
    ErrorKind::Args,
    ErrorKind::MissingArg,
];

const TAGS: [&str; 8] = [
    "Registration",
    "Request",
    "Response",
    "ServerError",
    "Deserialization",
    "Serialization",
    "Args",
    "MissingArg",
];

#[test]
fn header_name_is_fixed() {
    assert_eq!(SERVER_FN_ERROR_HEADER, "serverfnerror");
}

#[test]
fn kinds_have_their_tags() {
    for i in 0..8 {
        assert_eq!(KINDS[i].tag(), TAGS[i]);
        assert_eq!(ErrorKind::from_tag(TAGS[i]), Some(KINDS[i]));
    }
}

#[test]
fn unknown_tags_have_no_kind() {
    assert_eq!(ErrorKind::from_tag(""), None);
    assert_eq!(ErrorKind::from_tag("servererror"), None);
    assert_eq!(ErrorKind::from_tag("ServerError "), None);
    assert_eq!(ErrorKind::from_tag("ServerErro"), None);
    assert_eq!(ErrorKind::from_tag("Arg"), None);
    assert_eq!(ErrorKind::from_tag("Argsé"), None);
}

#[test]
fn new_builds_each_variant() {
    assert_eq!(
        ServerFnErrorErr::new(ErrorKind::Registration, "a".to_string()),
        ServerFnErrorErr::Registration("a".to_string())
    );
    assert_eq!(
        ServerFnErrorErr::new(ErrorKind::Request, "b".to_string()),
        ServerFnErrorErr::Request("b".to_string())
    );
    assert_eq!(
        ServerFnErrorErr::new(ErrorKind::Response, "c".to_string()),
        ServerFnErrorErr::Response("c".to_string())
    );
    assert_eq!(
        ServerFnErrorErr::new(ErrorKind::ServerError, "d".to_string()),
        ServerFnErrorErr::ServerError("d".to_string())
    );
    assert_eq!(
        ServerFnErrorErr::new(ErrorKind::Deserialization, "e".to_string()),
        ServerFnErrorErr::Deserialization("e".to_string())
    );
    assert_eq!(
        ServerFnErrorErr::new(ErrorKind::Serialization, "f".to_string()),
        ServerFnErrorErr::Serialization("f".to_string())
    );
    assert_eq!(
        ServerFnErrorErr::new(ErrorKind::Args, "g".to_string()),
        ServerFnErrorErr::Args("g".to_string())
    );
    assert_eq!(
        ServerFnErrorErr::new(ErrorKind::MissingArg, "h".to_string()),
        ServerFnErrorErr::MissingArg("h".to_string())
    );
}

#[test]
fn kind_and_payload_read_back() {
    for kind in KINDS {
        let err = ServerFnErrorErr::new(kind, "why".to_string());
        assert_eq!(err.kind(), kind);
        assert_eq!(err.payload(), "why");
    }
}

#[test]
fn encode_writes_tag_bar_payload() {
    assert_eq!(
        ServerFnErrorErr::Registration("poisoned".to_string()).encode(),
        "Registration|poisoned"
    );
    assert_eq!(ServerFnErrorErr::Request("timeout".to_string()).encode(), "Request|timeout");
    assert_eq!(ServerFnErrorErr::Response("bad header".to_string()).encode(), "Response|bad header");
    assert_eq!(ServerFnErrorErr::ServerError("boom".to_string()).encode(), "ServerError|boom");
    assert_eq!(
        ServerFnErrorErr::Deserialization("eof".to_string()).encode(),
        "Deserialization|eof"
    );
    assert_eq!(
        ServerFnErrorErr::Serialization("nan".to_string()).encode(),
        "Serialization|nan"
    );
    assert_eq!(ServerFnErrorErr::Args("x".to_string()).encode(), "Args|x");
    assert_eq!(ServerFnErrorErr::MissingArg("id".to_string()).encode(), "MissingArg|id");
}

#[test]
fn encode_of_empty_payload_ends_in_bar() {
    assert_eq!(ServerFnErrorErr::ServerError(String::new()).encode(), "ServerError|");
}

#[test]
fn decode_reads_each_tag() {
    assert_eq!(
        ServerFnErrorErr::decode("Registration|poisoned"),
        ServerFnErrorErr::Registration("poisoned".to_string())
    );
    assert_eq!(
        ServerFnErrorErr::decode("Request|timeout"),
        ServerFnErrorErr::Request("timeout".to_string())
    );
    assert_eq!(
        ServerFnErrorErr::decode("Response|bad header"),
        ServerFnErrorErr::Response("bad header".to_string())
    );
    assert_eq!(
        ServerFnErrorErr::decode("ServerError|boom"),
        ServerFnErrorErr::ServerError("boom".to_string())
    );
    assert_eq!(
        ServerFnErrorErr::decode("Deserialization|eof"),
        ServerFnErrorErr::Deserialization("eof".to_string())
    );
    assert_eq!(
        ServerFnErrorErr::decode("Serialization|nan"),
        ServerFnErrorErr::Serialization("nan".to_string())
    );
    assert_eq!(ServerFnErrorErr::decode("Args|x"), ServerFnErrorErr::Args("x".to_string()));
    assert_eq!(
        ServerFnErrorErr::decode("MissingArg|id"),
        ServerFnErrorErr::MissingArg("id".to_string())
    );
}

#[test]
fn decode_splits_at_the_first_bar_only() {
    assert_eq!(
        ServerFnErrorErr::decode("ServerError|a|b||c"),
        ServerFnErrorErr::ServerError("a|b||c".to_string())
    );
    assert_eq!(ServerFnErrorErr::decode("Args||"), ServerFnErrorErr::Args("|".to_string()));
}

#[test]
fn decode_of_empty_payload() {
    assert_eq!(ServerFnErrorErr::decode("Request|"), ServerFnErrorErr::Request(String::new()));
}

#[test]
fn round_trip_for_every_kind_and_payload() {
    let payloads = [
        "",
        "boom",
        "a|b",
        "|",
        "||",
        "ServerError|nested",
        "line\nbreak",
        "tab\tquote\"back\\slash",
        "é ü 漢字 🦀",
        " leading and trailing ",
    ];
    for kind in KINDS {
        for payload in payloads {
            let err = ServerFnErrorErr::new(kind, payload.to_string());
            assert_eq!(ServerFnErrorErr::decode(&err.encode()), err);
            assert_eq!(ServerFnErrorErr::de(&err.ser().unwrap()), err);
        }
    }
}

#[test]
fn decode_of_the_empty_text_reports_it() {
    assert_eq!(
        ServerFnErrorErr::decode(""),
        ServerFnErrorErr::Deserialization("Could not deserialize error \"\"".to_string())
    );
}

#[test]
fn decode_without_a_bar_reports_the_text() {
    assert_eq!(
        ServerFnErrorErr::decode("ServerError"),
        ServerFnErrorErr::Deserialization("Could not deserialize error \"ServerError\"".to_string())
    );
    assert_eq!(
        ServerFnErrorErr::decode("something went wrong"),
        ServerFnErrorErr::Deserialization(
            "Could not deserialize error \"something went wrong\"".to_string()
        )
    );
}

#[test]
fn decode_of_an_unknown_tag_reports_the_text() {
    assert_eq!(
        ServerFnErrorErr::decode("Nope|payload"),
        ServerFnErrorErr::Deserialization("Could not deserialize error \"Nope|payload\"".to_string())
    );
    assert_eq!(
        ServerFnErrorErr::decode("|payload"),
        ServerFnErrorErr::Deserialization("Could not deserialize error \"|payload\"".to_string())
    );
    assert_eq!(
        ServerFnErrorErr::decode("servererror|boom"),
        ServerFnErrorErr::Deserialization(
            "Could not deserialize error \"servererror|boom\"".to_string()
        )
    );
    assert_eq!(
        ServerFnErrorErr::decode(" ServerError|boom"),
        ServerFnErrorErr::Deserialization(
            "Could not deserialize error \" ServerError|boom\"".to_string()
        )
    );
}

#[test]
fn decode_quotes_what_it_reports() {
    assert_eq!(
        ServerFnErrorErr::decode("say \"hi\"\n\tnow\\"),
        ServerFnErrorErr::Deserialization(
            "Could not deserialize error \"say \\\"hi\\\"\\n\\tnow\\\\\"".to_string()
        )
    );
}

#[test]
fn malformed_texts_decode_to_deserialization() {
    let texts = ["", "|", "||", "x", "Registration", "registration|x", "Args |x", "\n", "🦀|🦀"];
    for text in texts {
        let err = ServerFnErrorErr::decode(text);
        assert_eq!(err.kind(), ErrorKind::Deserialization);
        assert_eq!(err.payload(), format!("Could not deserialize error {:?}", text));
    }
}

#[test]
fn ser_and_de_are_the_codec() {
    let err = ServerFnErrorErr::MissingArg("id".to_string());
    assert_eq!(err.ser(), Ok("MissingArg|id".to_string()));
    assert_eq!(
        <ServerFnErrorErr as ServerFnErrorSerde>::de("MissingArg|id"),
        ServerFnErrorErr::MissingArg("id".to_string())
    );
}

#[test]
fn to_text_renders_each_kind() {
    assert_eq!(
        ServerFnErrorErr::Registration("x".to_string()).to_text(),
        "error while trying to register the server function: x"
    );
    assert_eq!(
        ServerFnErrorErr::Request("x".to_string()).to_text(),
        "error reaching server to call server function: x"
    );
    assert_eq!(
        ServerFnErrorErr::Response("x".to_string()).to_text(),
        "error creating response x"
    );
    assert_eq!(
        ServerFnErrorErr::ServerError("x".to_string()).to_text(),
        "error running server function: x"
    );
    assert_eq!(
        ServerFnErrorErr::Deserialization("x".to_string()).to_text(),
        "error deserializing server function results: x"
    );
    assert_eq!(
        ServerFnErrorErr::Serialization("x".to_string()).to_text(),
        "error serializing server function arguments: x"
    );
    assert_eq!(
        ServerFnErrorErr::Args("x".to_string()).to_text(),
        "error deserializing server function arguments: x"
    );
    assert_eq!(ServerFnErrorErr::MissingArg("x".to_string()).to_text(), "missing argument x");
}

#[test]
fn taxonomy_meets_the_custom_error_contract() {
    let err = ServerFnErrorErr::Args("bad".to_string());
    assert_eq!(
        <ServerFnErrorErr as CustomServerFnError>::from_server_fn_error(err.clone()),
        err
    );
    assert_eq!(
        CustomServerFnError::to_text(&err),
        "error deserializing server function arguments: bad"
    );
    assert_eq!(wire_or_text(&err), "Args|bad");
}

#[test]
fn clone_keeps_kind_and_payload() {
    for kind in KINDS {
        let err = ServerFnErrorErr::new(kind, "same".to_string());
        assert_eq!(err.clone(), err);
    }
}

#[test]
fn equality_is_by_kind_and_payload() {
    assert_eq!(ServerFnErrorErr::Args("x".to_string()), ServerFnErrorErr::Args("x".to_string()));
    assert_ne!(ServerFnErrorErr::Args("x".to_string()), ServerFnErrorErr::Args("y".to_string()));
    assert_ne!(
        ServerFnErrorErr::Args("x".to_string()),
        ServerFnErrorErr::MissingArg("x".to_string())
    );
}

#[test]
fn order_is_by_kind_then_payload() {
    assert!(ServerFnErrorErr::Registration("z".to_string()) < ServerFnErrorErr::Request("a".to_string()));
    assert!(ServerFnErrorErr::Args("a".to_string()) < ServerFnErrorErr::Args("b".to_string()));
    assert!(ServerFnErrorErr::Args("b".to_string()) < ServerFnErrorErr::MissingArg("a".to_string()));
}

#[test]
fn wrapped_taxonomy_error_is_taken_as_it_is() {
    let err = ServerFnErrorErr::Request("down".to_string());
    assert_eq!(WrapError(err.clone()).to_server_error(), err);
}

#[test]
fn wrapped_text_becomes_a_server_error() {
    assert_eq!(
        WrapError("boom".to_string()).to_server_error(),
        ServerFnErrorErr::ServerError("boom".to_string())
    );
    assert_eq!(
        WrapError("boom").to_server_error(),
        ServerFnErrorErr::ServerError("boom".to_string())
    );
}

#[test]
fn could_not_deserialize_reports_the_quoted_text_it_is_given() {
    assert_eq!(
        ServerFnErrorErr::could_not_deserialize("\"x\""),
        ServerFnErrorErr::Deserialization("Could not deserialize error \"x\"".to_string())
    );
    assert_eq!(
        ServerFnErrorErr::could_not_deserialize(""),
        ServerFnErrorErr::Deserialization("Could not deserialize error ".to_string())
    );
    assert_eq!(
        ServerFnErrorErr::could_not_deserialize("as given | \\n"),
        ServerFnErrorErr::Deserialization("Could not deserialize error as given | \\n".to_string())
    );
}

#[test]
fn decode_of_a_malformed_text_is_the_report_of_its_quoted_form() {
    for text in ["", "nope", "Nope|x", "a\"b\n"] {
        assert_eq!(
            ServerFnErrorErr::decode(text),
            ServerFnErrorErr::could_not_deserialize(&format!("{:?}", text))
        );
    }
}

#[test]
fn into_custom_passes_a_success_and_converts_a_failure() {
    assert_eq!(into_custom::<u8, ServerFnErrorErr>(Ok(7)), Ok(7));
    assert_eq!(
        into_custom::<u8, ServerFnErrorErr>(Err(ServerFnErrorErr::Response("bad".to_string()))),
        Err(ServerFnErrorErr::Response("bad".to_string()))
    );
}
