use plexus_core::plexus::bidirectional::{
    BidirRequest, BidirResponse, CancelledResponse, ConfirmRequest, ConfirmedResponse,
    PromptRequest, SelectOption, SelectRequest, SelectedResponse, TextResponse, WellKnownRequest,
    WellKnownResponse,
};
use serde::ser::SerializeStruct;
use serde::{Deserialize, Deserializer, Serialize, Serializer};
use serde_json::Value;

#[derive(Debug, PartialEq)]
struct TestRequest {
    message: String,
}

impl BidirRequest for TestRequest {
    fn type_tag(&self) -> &'static str {
        "test_request"
    }
}

impl Serialize for TestRequest {
    fn serialize<S: Serializer>(&self, serializer: S) -> Result<S::Ok, S::Error> {
        let mut st = serializer.serialize_struct("TestRequest", 1)?;
        st.serialize_field("message", &self.message)?;
        st.end()
    }
}

impl<'de> Deserialize<'de> for TestRequest {
    fn deserialize<D: Deserializer<'de>>(deserializer: D) -> Result<Self, D::Error> {
        let v = Value::deserialize(deserializer)?;
        match v.get("message").and_then(Value::as_str) {
            Some(m) => Ok(TestRequest { message: m.to_string() }),
            None => Err(serde::de::Error::missing_field("message")),
        }
    }
}

#[derive(Debug, PartialEq)]
struct TestResponse {
    result: String,
}

impl BidirResponse for TestResponse {
    fn type_tag(&self) -> &'static str {
        "test_response"
    }
}

impl Serialize for TestResponse {
    fn serialize<S: Serializer>(&self, serializer: S) -> Result<S::Ok, S::Error> {
        let mut st = serializer.serialize_struct("TestResponse", 1)?;
        st.serialize_field("result", &self.result)?;
        st.end()
    }
}

impl<'de> Deserialize<'de> for TestResponse {
    fn deserialize<D: Deserializer<'de>>(deserializer: D) -> Result<Self, D::Error> {
        let v = Value::deserialize(deserializer)?;
        match v.get("result").and_then(Value::as_str) {
            Some(r) => Ok(TestResponse { result: r.to_string() }),
            None => Err(serde::de::Error::missing_field("result")),
        }
    }
}

#[test]
fn test_request_trait() {
    let req = TestRequest { message: "Hello".to_string() };
    assert_eq!(req.type_tag(), "test_request");

    let json = serde_json::to_value(&req).unwrap();
    assert_eq!(json["message"], "Hello");

    let roundtrip: TestRequest = serde_json::from_value(json).unwrap();
    assert_eq!(roundtrip, req);
}

#[test]
fn test_response_trait() {
    let resp = TestResponse { result: "OK".to_string() };
    assert_eq!(resp.type_tag(), "test_response");

    let json = serde_json::to_value(&resp).unwrap();
    assert_eq!(json["result"], "OK");

    let roundtrip: TestResponse = serde_json::from_value(json).unwrap();
    assert_eq!(roundtrip, resp);
}

#[test]
fn test_select_option_builder() {
    let opt = SelectOption::new(Value::String("prod".into()), "Production".to_string())
        .with_description("Requires approval".to_string());

    assert_eq!(opt.value, Value::String("prod".into()));
    assert_eq!(opt.label, "Production");
    assert_eq!(opt.description, Some("Requires approval".into()));
}

#[test]
fn request_type_tags() {
    let confirm = ConfirmRequest { message: "Delete file?".into(), default: Some(false) };
    assert_eq!(confirm.type_tag(), "confirm");
    let prompt = PromptRequest {
        message: "Enter name:".into(),
        default: Some("John".into()),
        placeholder: Some("Your name".into()),
    };
    assert_eq!(prompt.type_tag(), "prompt");
    let select = SelectRequest {
        message: "Choose option:".into(),
        options: vec![
            SelectOption::new(Value::String("a".into()), "Option A".into()),
            SelectOption::new(Value::String("b".into()), "Option B".into())
                .with_description("Second option".into()),
        ],
        multi_select: false,
    };
    assert_eq!(select.type_tag(), "select");
    assert_eq!(select.options[1].description.as_deref(), Some("Second option"));

    assert_eq!(WellKnownRequest::Confirm(confirm).type_tag(), "confirm");
    assert_eq!(WellKnownRequest::Prompt(prompt).type_tag(), "prompt");
    assert_eq!(WellKnownRequest::Select(select).type_tag(), "select");
}

#[test]
fn response_type_tags() {
    assert_eq!(ConfirmedResponse { value: true }.type_tag(), "confirmed");
    assert_eq!(TextResponse { value: "Hello".into() }.type_tag(), "text");
    assert_eq!(SelectedResponse { values: vec!["a".into(), "b".into()] }.type_tag(), "selected");
    assert_eq!(CancelledResponse {}.type_tag(), "cancelled");

    let tags: Vec<&str> = vec![
        WellKnownResponse::Confirmed(ConfirmedResponse { value: true }).type_tag(),
        WellKnownResponse::Text(TextResponse { value: "x".into() }).type_tag(),
        WellKnownResponse::Selected(SelectedResponse { values: vec![] }).type_tag(),
        WellKnownResponse::Cancelled(CancelledResponse {}).type_tag(),
    ];
    assert_eq!(tags, vec!["confirmed", "text", "selected", "cancelled"]);
}
