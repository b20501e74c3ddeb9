use lumeo_api_client::auth::{LoginParams, LoginResponse};
use lumeo_api_client::commands::{Body, Message, Notification, Request, TraceHeaders};
use lumeo_api_client::decode::{DecodeError, Expected};
use lumeo_api_client::devices::DeviceData;
use lumeo_api_client::error::{
    classify_body, classify_parsed, ApiError, ErrorDetails, ResourceNotFound, ResponseFailure,
};
use lumeo_api_client::events::{
    DeploymentError, ErrorData, EventData, GstErrorDomain, Severity,
};
use lumeo_api_client::files::{
    create_lumeo_file_url, parse_file_id_from_lumeo_url, FileCloudStatus, FileUrlError,
};
use lumeo_api_client::gateways::GatewayData;
use lumeo_api_client::json::Json;
use lumeo_api_client::named::Named;
use lumeo_api_client::routes::{bearer, merge_query, request_url, MissingId, Part, Route};
use lumeo_api_client::url::Url;
use lumeo_api_client::uuid::Uuid;

fn answer(code: &str) -> Json {
    Json::from_text(&format!(r#"{{"code":"{}","message":"","context":null}}"#, code)).unwrap()
}

#[test]
fn error_gateway_deleted() {
    let error = ApiError::from_json(&answer("gateway-deleted")).unwrap();
    assert!(matches!(error, ApiError::GatewayDeleted));
}

#[test]
fn error_invalid_credentials() {
    let error = ApiError::from_json(&answer("invalid-credentials")).unwrap();
    assert!(matches!(error, ApiError::InvalidCredentials));
}

#[test]
fn api_errors_by_code_and_context() {
    let found = Json::from_text(
        r#"{"code":"resource-not-found","message":"gone","context":{"resource":"deployment"}}"#,
    )
    .unwrap();
    assert_eq!(
        ApiError::from_json(&found),
        Ok(ApiError::ResourceNotFound(ResourceNotFound::DeploymentNotFound))
    );
    let other = Json::from_text(
        r#"{"code":"resource-not-found","message":"gone","context":{"resource":"camera"}}"#,
    )
    .unwrap();
    let error = ApiError::from_json(&other).unwrap();
    assert_eq!(error, ApiError::ResourceNotFound(ResourceNotFound::Other("camera".into())));
    assert_eq!(error.code(), "resource-not-found");
    assert_eq!(
        error.message(),
        "Resource not found (`resource-not-found`), resource: Other(camera)"
    );
    // without a resource in the context the error is passed on as it came
    for text in [
        r#"{"code":"resource-not-found","message":"gone"}"#,
        r#"{"code":"resource-not-found","message":"gone","context":null}"#,
        r#"{"code":"resource-not-found","message":"gone","context":{"resource":5}}"#,
        r#"{"code":"resource-not-found","message":"gone","context":["deployment"]}"#,
    ] {
        assert_eq!(
            ApiError::from_json(&Json::from_text(text).unwrap()),
            Ok(ApiError::Other { code: "resource-not-found".into(), message: "gone".into() })
        );
    }
    let unknown = ApiError::from_json(
        &Json::from_text(r#"{"code":"teapot","message":"I am a teapot"}"#).unwrap(),
    )
    .unwrap();
    assert_eq!(unknown.code(), "teapot");
    assert_eq!(unknown.message(), "I am a teapot (`teapot`)");
    assert_eq!(
        ApiError::GatewayDeleted.message(),
        "The gateway this access token belonged to has been deleted (`gateway-deleted`)"
    );
    assert_eq!(
        ApiError::InvalidCredentials.message(),
        "User credentials are invalid (`invalid-credentials`)"
    );
    assert_eq!(
        ApiError::from_json(&Json::from_text(r#"{"message":"x"}"#).unwrap()),
        Err(DecodeError::MissingField { field: "code".into() })
    );
    assert_eq!(
        ApiError::from_json(&Json::from_text(r#"{"code":"x"}"#).unwrap()),
        Err(DecodeError::MissingField { field: "message".into() })
    );
    assert_eq!(
        ApiError::from_json(&Json::from_text(r#"{"code":7,"message":"x"}"#).unwrap()),
        Err(DecodeError::Unexpected { expected: Expected::Text })
    );
    assert_eq!(ResourceNotFound::default(), ResourceNotFound::Other(String::new()));
    assert_eq!(ResourceNotFound::DeploymentNotFound.describe(), "Deployment");
}

#[test]
fn bodies_of_failed_answers() {
    assert_eq!(classify_body(""), ResponseFailure::Empty);
    assert_eq!(
        classify_body(r#"{"code":"gateway-deleted","message":""}"#),
        ResponseFailure::Api(ApiError::GatewayDeleted)
    );
    assert_eq!(
        classify_body("<html>"),
        ResponseFailure::Unreadable(DecodeError::InvalidText)
    );
    assert_eq!(
        classify_body("[]"),
        ResponseFailure::Unreadable(DecodeError::Unexpected { expected: Expected::Object })
    );
    assert_eq!(classify_parsed(true, Some(Json::Null)), ResponseFailure::Empty);
    assert_eq!(
        classify_parsed(false, None),
        ResponseFailure::Unreadable(DecodeError::InvalidText)
    );
    let details = ErrorDetails::new("GET", "/v1/orgs", Some("404 Not Found".into()));
    assert_eq!(
        details.message(),
        "GET request to `/v1/orgs` failed with status code 404 Not Found"
    );
    let details = ErrorDetails::new("PUT", "/v1/orgs", None);
    assert_eq!(details.message(), "PUT request to `/v1/orgs` failed");
}

#[test]
fn should_create_lumeo_file_url_from_id() {
    let file_id =
        Uuid::parse_str("f65c8128-e25a-11ec-b486-efa3b8212d7f").expect("Failed to parse UUID");
    let url = create_lumeo_file_url(file_id).expect("Failed to create URL");

    assert_eq!("lumeo://f65c8128-e25a-11ec-b486-efa3b8212d7f", url.as_str());
}

#[test]
fn should_parse_lumeo_file_url() {
    let url =
        Url::parse("lumeo://f65c8128-e25a-11ec-b486-efa3b8212d7f").expect("Failed to parse URL");

    let file_id = parse_file_id_from_lumeo_url(&url).expect("Failed to parse lumeo file URL");
    let expected_file_id =
        Uuid::parse_str("f65c8128-e25a-11ec-b486-efa3b8212d7f").expect("Failed to parse UUID");

    assert_eq!(expected_file_id, file_id);
}

#[test]
fn should_not_parse_lumeo_file_url_with_query() {
    let url = Url::parse("lumeo://f65c8128-e25a-11ec-b486-efa3b8212d7f?key=value")
        .expect("Failed to parse URL");

    assert_eq!(Err(FileUrlError::InvalidLength), parse_file_id_from_lumeo_url(&url));
}

#[test]
fn should_not_parse_lumeo_file_url_without_host() {
    let url = Url::parse("lumeo://").expect("Failed to parse URL");

    assert_eq!(Err(FileUrlError::MissingHost), parse_file_id_from_lumeo_url(&url));
}

#[test]
fn should_not_parse_lumeo_file_url_with_incorrect_scheme() {
    let url = Url::parse("http://example.com").expect("Failed to parse URL");

    assert_eq!(
        Err(FileUrlError::InvalidScheme("http".into())),
        parse_file_id_from_lumeo_url(&url)
    );
}

#[test]
fn should_not_parse_lumeo_file_url_with_invalid_uuid() {
    let invalid_uuid = {
        let valid_uuid = "f65c8128-e25a-11ec-b486-efa3b8212d7f";
        Uuid::parse_str(valid_uuid).expect("Failed to parse valid UUID");
        valid_uuid.replace('f', "g")
    };
    assert!(Uuid::parse_str(&invalid_uuid).is_none(), "UUID was not invalid");

    let url =
        Url::parse("lumeo://g65c8128-e25a-11ec-b486-efa3b8212d7f").expect("Failed to parse URL");

    assert_eq!(
        Err(FileUrlError::InvalidUuid("g65c8128-e25a-11ec-b486-efa3b8212d7f".into())),
        parse_file_id_from_lumeo_url(&url)
    );
}

#[test]
fn file_url_errors_have_messages() {
    assert_eq!(
        FileUrlError::InvalidScheme("http".into()).message(),
        "Invalid scheme, expected 'lumeo', got 'http'"
    );
    assert_eq!(FileUrlError::MissingHost.message(), "Missing host");
    assert_eq!(FileUrlError::InvalidLength.message(), "Invalid length");
    assert_eq!(FileUrlError::InvalidUuid("x".into()).message(), "Invalid UUID: 'x'");
    assert_eq!(FileCloudStatus::Uploading.as_str(), "uploading");
    assert_eq!(FileCloudStatus::from_name("disabled"), Some(FileCloudStatus::Disabled));
    let url = Url::parse("lumeo://f65c8128-e25a-11ec-b486-efa3b8212d7f/path").unwrap();
    assert_eq!(Err(FileUrlError::InvalidLength), parse_file_id_from_lumeo_url(&url));
    assert_eq!(url.scheme(), "lumeo");
    assert_eq!(url.host_str(), Some("f65c8128-e25a-11ec-b486-efa3b8212d7f".to_string()));
    assert_eq!(url.query(), None);
}

#[test]
fn paths_of_the_service() {
    let app = Uuid::parse_str("c954e9ac-c6a8-4409-b6d0-f98abe1c8f67");
    let gateway = Uuid::parse_str("4ce404f3-ec77-485b-8970-86becbde5f38");
    let id = Uuid::parse_str("f65c8128-e25a-11ec-b486-efa3b8212d7f").unwrap();
    assert_eq!(
        Route::Camera(id).path(app, None),
        Ok("/v1/apps/c954e9ac-c6a8-4409-b6d0-f98abe1c8f67/cameras/f65c8128-e25a-11ec-b486-efa3b8212d7f".to_string())
    );
    assert_eq!(
        Route::DiscoveryRequest(id).path(app, gateway),
        Ok("/v1/apps/c954e9ac-c6a8-4409-b6d0-f98abe1c8f67/gateways/4ce404f3-ec77-485b-8970-86becbde5f38/discovery_request/f65c8128-e25a-11ec-b486-efa3b8212d7f".to_string())
    );
    assert_eq!(
        Route::DeviceIpExt.path(app, gateway),
        Ok("/v1/apps/c954e9ac-c6a8-4409-b6d0-f98abe1c8f67/devices/4ce404f3-ec77-485b-8970-86becbde5f38/ip_ext".to_string())
    );
    assert_eq!(
        Route::StartDeployment(id).path(app, None),
        Ok("/v1/apps/c954e9ac-c6a8-4409-b6d0-f98abe1c8f67/deployments/f65c8128-e25a-11ec-b486-efa3b8212d7f/start".to_string())
    );
    assert_eq!(
        Route::VideoSourceMetrics(id).path(None, None),
        Ok("/metrics/v1/gateways/f65c8128-e25a-11ec-b486-efa3b8212d7f/video_source_metrics".to_string())
    );
    assert_eq!(Route::Orgs.path(None, None), Ok("/v1/orgs".to_string()));
    assert_eq!(Route::Login.path(None, None), Ok("/v1/internal/auth/login".to_string()));
    assert_eq!(Route::Cameras.path(None, gateway), Err(MissingId::ApplicationIdMissing));
    assert_eq!(Route::Gateway.path(app, None), Err(MissingId::GatewayIdMissing));
    assert_eq!(Route::Gateway.path(None, None), Err(MissingId::ApplicationIdMissing));
    assert_eq!(MissingId::ApplicationIdMissing.message(), "Application id is missing");
    assert_eq!(MissingId::GatewayIdMissing.message(), "Gateway id is missing");
    assert_eq!(
        Route::Files.parts(),
        vec![Part::Text("/v1/apps/"), Part::Application, Part::Text("/files")]
    );
}

#[test]
fn queries_are_joined() {
    assert_eq!(merge_query(None, "b=2"), "b=2");
    assert_eq!(merge_query(Some("a=1"), "b=2"), "a=1&b=2");
    assert_eq!(bearer("secret"), "Bearer secret");
    let url = request_url("https://api.example.com", "/v1/orgs", None).unwrap();
    assert_eq!(url.as_str(), "https://api.example.com/v1/orgs");
    let url = request_url("https://api.example.com", "/v1/orgs?a=1", Some("limit=5")).unwrap();
    assert_eq!(url.as_str(), "https://api.example.com/v1/orgs?a=1&limit=5");
    assert_eq!(url.query(), Some("a=1&limit=5".to_string()));
    let url = request_url("https://api.example.com", "/v1/orgs", Some("limit=5")).unwrap();
    assert_eq!(url.as_str(), "https://api.example.com/v1/orgs?limit=5");
    assert_eq!(request_url("nowhere", "/v1/orgs", None), None);
}

#[test]
fn events_are_written() {
    let error = DeploymentError::GstError { domain: GstErrorDomain::Resource, code: -7 };
    assert_eq!(error.to_json().to_text(), r#"{"kind":"gst_error","domain":"resource","code":-7}"#);
    let data = ErrorData::Deployment { deployment_id: Uuid::nil(), error };
    assert_eq!(
        data.to_json().to_text(),
        r#"{"kind":"deployment","deployment_id":"00000000-0000-0000-0000-000000000000","error":{"kind":"gst_error","domain":"resource","code":-7}}"#
    );
    let lowest = DeploymentError::GstError { domain: GstErrorDomain::Core, code: i32::MIN };
    assert_eq!(
        lowest.to_json().to_text(),
        r#"{"kind":"gst_error","domain":"core","code":-2147483648}"#
    );
    assert_eq!(GstErrorDomain::Core.number(), 1);
    assert_eq!(GstErrorDomain::Stream.number(), 4);
    let event = EventData {
        category: "deployment".into(),
        event_type: "started".into(),
        severity: Severity::Info,
        payload: Some("up".into()),
        object: None,
        object_id: Some(Uuid::nil()),
    };
    assert_eq!(
        event.to_json().to_text(),
        r#"{"category":"deployment","event_type":"started","severity":"info","payload":"up","object":null,"object_id":"00000000-0000-0000-0000-000000000000"}"#
    );
    assert_eq!(Severity::from_name("warning"), Some(Severity::Warning));
}

#[test]
fn small_records_are_written_and_read() {
    let login = LoginParams { email: "a@example.com".into(), password: "pw".into() };
    assert_eq!(login.to_json().to_text(), r#"{"email":"a@example.com","password":"pw"}"#);
    assert_eq!(
        LoginResponse::from_json(&Json::from_text(r#"{"token":"t0"}"#).unwrap()),
        Ok(LoginResponse { token: "t0".into() })
    );
    assert_eq!(
        LoginResponse::from_json(&Json::from_text(r#"{}"#).unwrap()),
        Err(DecodeError::MissingField { field: "token".into() })
    );
    let gateway = GatewayData {
        status: "online".into(),
        name: "gw".into(),
        model: None,
        ip_local: Some("10.0.0.2".into()),
        ip_ext: None,
        mac_address: None,
    };
    assert_eq!(
        gateway.to_json().to_text(),
        r#"{"status":"online","name":"gw","ip_local":"10.0.0.2"}"#
    );
    let device = DeviceData {
        status: "offline".into(),
        name: "dev".into(),
        model: Some("m".into()),
        ip_local: None,
        ip_ext: None,
        mac_address: Some("00:11".into()),
    };
    assert_eq!(
        device.to_json().to_text(),
        r#"{"status":"offline","name":"dev","model":"m","mac_address":"00:11"}"#
    );
}

#[test]
fn messages_carry_trace_headers() {
    let headers = TraceHeaders(vec![
        ("traceparent".to_string(), "00-abc".to_string()),
        ("tracestate".to_string(), "x=1".to_string()),
    ]);
    assert_eq!(
        headers.as_iter_str(),
        vec![("traceparent", "00-abc"), ("tracestate", "x=1")]
    );
    assert!(TraceHeaders::default().as_iter_str().is_empty());
    let request = Message::Request(Request {
        body: Body::DeleteGateway,
        respond_to: "inbox".into(),
        trace_headers: Some(headers.clone()),
    });
    assert_eq!(request.trace_headers(), Some(&headers));
    assert_eq!(request.body(), &Body::DeleteGateway);
    let notification = Message::Notification(Notification {
        body: Body::StopDeployment(Json::Null),
        trace_headers: None,
    });
    assert_eq!(notification.trace_headers(), None);
    assert_eq!(lumeo_api_client::commands::Error::DeserializeCommand.message(), "Failed to deserialize command");
}

#[test]
fn values_travel_inside_strings() {
    let value = Json::from_text(r#"{"a":[1,"x"]}"#).unwrap();
    let wrapped = lumeo_api_client::util::json_string::serialize(&value);
    assert_eq!(wrapped, Json::Text(r#"{"a":[1,"x"]}"#.into()));
    assert_eq!(wrapped.to_text(), r#""{\"a\":[1,\"x\"]}""#);
    assert_eq!(lumeo_api_client::util::json_string::deserialize(&wrapped), Ok(value));
    assert_eq!(
        lumeo_api_client::util::json_string::deserialize(&Json::Text("{".into())),
        Err(DecodeError::InvalidText)
    );
    assert_eq!(
        lumeo_api_client::util::json_string::deserialize(&Json::Null),
        Err(DecodeError::Unexpected { expected: Expected::Text })
    );
}
