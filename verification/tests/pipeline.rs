use lumeo_api_client::decode::{DecodeError, Expected, Family, Shape};
use lumeo_api_client::deployments::{deserialize_optional_pipeline_def, deserialize_pipeline_def};
use lumeo_api_client::json::Json;
use lumeo_api_client::named::{read_named, write_named, Named};
use lumeo_api_client::number::Number;
use lumeo_api_client::pipeline::node::Node;
use lumeo_api_client::pipeline::node_properties::transform_properties::{
    Crop, FlipDirection, TransformProperties,
};
use lumeo_api_client::pipeline::node_properties::video_source_properties::{
    CameraProperties, CameraRuntime, CommonVideoSourceProperties, InputRtspStreamRuntime,
    InputStreamProperties, InputStreamRuntime, InputUrlFileStreamRuntime, RotateDirection,
    UsbCameraRuntime, VideoSourceProperties,
};
use lumeo_api_client::pipeline::node_properties::{
    EncodeProperties, NodeProperties, StreamRtspOutProperties, StreamRtspOutRuntime,
};
use lumeo_api_client::pipeline::pad::{SinkPad, SourcePad, SourcePads};
use lumeo_api_client::pipeline::resolution::Resolution;
use lumeo_api_client::pipeline::{Pipeline, PipelineError};
use lumeo_api_client::url::Url;
use lumeo_api_client::uuid::Uuid;

const THREE_NODES: &str = r#"
[
    {
        "id": "video1",
        "properties": {
            "type": "video",
            "source_type": "camera",
            "source_id": "00000000-0000-0000-0000-000000000000",
            "framerate": 15,
            "resolution": "720x480",
            "rotate": 30.0,
            "rotate_fixed_angle": "clockwise180",
            "flip": "vertical",
            "crop": "30:40:10:20",
            "usb": {
                "uri": "file:///dev/video0",
                "name": "Qwerty 3000"
            }
        },
        "wires": {
            "video": [
                "encode1.input"
            ],
            "snapshot": []
        }
    },
    {
        "id": "encode1",
        "properties": {
            "type": "encode",
            "codec": "h264",
            "max_bitrate": 1500000,
            "quality": 10,
            "fps": 15
        },
        "wires": {
            "output": [
                "stream_rtsp_out1.input"
            ]
        }
    },
    {
        "id": "stream_rtsp_out1",
        "properties": {
            "type": "stream_rtsp_out",
            "uri": "rtsp://127.0.0.1:5555/mycamera",
            "stream_id": "00000000-0000-0000-0000-000000000000",
            "udp_port": 5800
        },
        "wires": {}
    }
]
"#;

fn number(value: f64) -> Number {
    Number { literal: format!("{:?}", value) }
}

fn video_properties() -> NodeProperties {
    NodeProperties::VideoSource(VideoSourceProperties::Camera(CameraProperties {
        common: CommonVideoSourceProperties {
            source_id: Uuid::nil(),
            resolution: Some(Resolution { width: 720, height: 480 }),
            framerate: Some(15),
            rotate: Some(number(30.0)),
            rotate_fixed_angle: Some(RotateDirection::Clockwise180),
            flip: Some(FlipDirection::Vertical),
            crop: Some(Crop { top: 10, bottom: 20, left: 30, right: 40 }),
        },
        runtime: Some(CameraRuntime::Usb(UsbCameraRuntime {
            uri: Url::parse("file:///dev/video0").unwrap(),
            name: "Qwerty 3000".into(),
        })),
    }))
}

fn encode_properties() -> NodeProperties {
    NodeProperties::Encode(EncodeProperties {
        codec: "h264".into(),
        max_bitrate: Some(1_500_000),
        bitrate: None,
        quality: Some(10),
        framerate: Some(15),
    })
}

fn stream_rtsp_out_properties() -> NodeProperties {
    NodeProperties::StreamRtspOut(StreamRtspOutProperties {
        runtime: Some(StreamRtspOutRuntime {
            uri: Url::parse("rtsp://127.0.0.1:5555/mycamera").unwrap(),
            stream_id: Uuid::nil(),
            udp_port: Some(5800),
        }),
    })
}

fn check_deserialize_pipeline(pipeline: &Pipeline) {
    // Check usb_camera node
    let node = pipeline.node_by_id("video1").unwrap();
    assert_eq!(node.id(), "video1");
    assert_eq!(node.properties(), &video_properties());
    let src_pad = node.source_pads().get("snapshot").unwrap();
    assert!(src_pad.sinks.is_empty());
    let src_pad = node.source_pads().get("video").unwrap();
    assert_eq!(src_pad.sinks, &["encode1.input".parse().unwrap()]);

    // Check encode1 node
    let node = pipeline.node_by_id("encode1").unwrap();
    assert_eq!(node.id(), "encode1");
    assert_eq!(node.properties(), &encode_properties());
    let src_pad = node.source_pads().get("output").unwrap();
    assert_eq!(src_pad.sinks, &["stream_rtsp_out1.input".parse().unwrap()]);

    // and finally check the stream_rtsp_out node
    let node = pipeline.node_by_id("stream_rtsp_out1").unwrap();
    assert_eq!(node.id(), "stream_rtsp_out1");
    assert_eq!(node.properties(), &stream_rtsp_out_properties());
    assert!(node.source_pads().is_empty());
}

fn three_nodes() -> Pipeline {
    let mut pipeline = Pipeline::new();

    // Add USB Camera
    let mut pads = SourcePads::new();
    pads.add(SourcePad {
        name: String::from("video"),
        sinks: vec![SinkPad { node: String::from("encode1"), name: String::from("input") }],
    });
    pads.add(SourcePad { name: String::from("snapshot"), sinks: vec![] });
    let node = Node::new("video1", video_properties(), Some(pads));
    pipeline.add_node(node);

    // Add Encoder
    let mut pads = SourcePads::new();
    pads.add(SourcePad {
        name: String::from("output"),
        sinks: vec![SinkPad {
            node: String::from("stream_rtsp_out1"),
            name: String::from("input"),
        }],
    });
    let node = Node::new("encode1", encode_properties(), Some(pads));
    pipeline.add_node(node);

    // Add RTSP sink
    let node = Node::new("stream_rtsp_out1", stream_rtsp_out_properties(), None);
    pipeline.add_node(node);
    pipeline
}

#[test]
fn pipeline_nodes_de() {
    let json = Json::from_text(THREE_NODES).unwrap();

    let pipeline = Pipeline::from_json(&json).unwrap();

    check_deserialize_pipeline(&pipeline);
}

#[test]
fn pipeline_nodes_ser() {
    let pipeline = three_nodes();

    let json = pipeline.to_json_text();

    // Deserialize it back and see if everything is as expected
    let pipeline = Pipeline::from_json_text(&json).unwrap();
    check_deserialize_pipeline(&pipeline);
}

#[test]
fn transform() {
    let t = TransformProperties {
        framerate: Some(15),
        resolution: Some(Resolution { width: 640, height: 480 }),
        rotation: Some(number(88_f64)),
        flip_direction: Some(FlipDirection::Vertical),
        crop_region: Some(Crop { top: 51, bottom: 49, left: 9, right: 1 }),
    };

    let mut members = Vec::new();
    t.write_members(&mut members);
    let s = Json::Object(members).to_text();
    let read = match Json::from_text(&s).unwrap() {
        Json::Object(members) => TransformProperties::from_members(&members).unwrap(),
        other => panic!("not an object: {:?}", other),
    };
    assert_eq!(t, read);
}

#[test]
fn deployments_deserialize_deployment() {
    let pipeline_json_s = r#"[{"id":"video1","properties":{"type":"video","source_type":"stream","source_id":"00000000-0000-0000-0000-000000000000","resolution":"1280x720","rtsp":{"name":"Video Name","uri":"https://example.com/somevideo.mp4"}},"wires":{}}]"#;
    let pipeline_json = Json::from_text(pipeline_json_s).unwrap();

    let pipeline = Pipeline::from_json(&pipeline_json).unwrap();

    let head = r#"{"id":"00000000-0000-0000-0000-000000000000","created_at":"2022-05-27T13:26:35.293670Z","updated_at":"2022-05-27T13:26:35.293670Z","name":"My deployment","pipeline_id":"00000000-0000-0000-0000-000000000000","gateway_id":"00000000-0000-0000-0000-000000000000","state":"stopped","definition":"#;

    // "Inlined" pipeline definition (array, not string)
    let deployment = Json::from_text(&format!("{}{}}}", head, pipeline_json_s)).unwrap();
    let definition = deserialize_pipeline_def(deployment.get("definition").unwrap()).unwrap();
    assert_eq!(definition.to_json_text(), pipeline.to_json_text());
    assert_eq!(definition, pipeline);

    // Stringified pipeline definition
    let quoted = Json::Text(pipeline_json_s.to_string()).to_text();
    let deployment = Json::from_text(&format!("{}{}}}", head, quoted)).unwrap();
    let definition = deserialize_pipeline_def(deployment.get("definition").unwrap()).unwrap();
    assert_eq!(definition.to_json_text(), pipeline.to_json_text());
    assert_eq!(definition, pipeline);
}

#[test]
fn definition_shapes() {
    assert_eq!(
        deserialize_pipeline_def(&Json::Null),
        Err(PipelineError::overall(DecodeError::NullDefinition))
    );
    assert_eq!(deserialize_optional_pipeline_def(&Json::Null), Ok(None));
    assert_eq!(
        deserialize_pipeline_def(&Json::Bool(true)),
        Err(PipelineError::overall(DecodeError::Unexpected { expected: Expected::Array }))
    );
    assert_eq!(
        deserialize_optional_pipeline_def(&Json::Number("1".into())),
        Err(PipelineError::overall(DecodeError::Unexpected { expected: Expected::Array }))
    );
    assert_eq!(
        deserialize_pipeline_def(&Json::Text("not json".into())),
        Err(PipelineError::overall(DecodeError::InvalidText))
    );
    assert_eq!(
        deserialize_pipeline_def(&Json::Null).unwrap_err().message(),
        "definition is null"
    );
    let empty = deserialize_optional_pipeline_def(&Json::Text("[]".into())).unwrap().unwrap();
    assert!(empty.is_empty());
    // The text of a definition holds the array itself, not one more string.
    assert_eq!(
        deserialize_pipeline_def(&Json::Text("\"[]\"".into())),
        Err(PipelineError::overall(DecodeError::Unexpected { expected: Expected::Array }))
    );
}

#[test]
fn round_trip_keeps_nodes_and_wires() {
    let pipeline = three_nodes();
    let back = Pipeline::from_json(&pipeline.to_json()).unwrap();
    assert_eq!(back, pipeline);
    let again = Pipeline::from_json_text(&pipeline.to_json_text()).unwrap();
    assert_eq!(again, pipeline);
}

#[test]
fn nodes_come_in_the_order_of_their_ids() {
    let pipeline = three_nodes();
    let ids: Vec<&str> = pipeline.nodes().iter().map(|n| n.id()).collect();
    assert_eq!(ids, vec!["encode1", "stream_rtsp_out1", "video1"]);
    let text = pipeline.to_json_text();
    assert!(text.starts_with("[{\"id\":\"encode1\""));
    let e = text.find("\"id\":\"encode1\"").unwrap();
    let s = text.find("\"id\":\"stream_rtsp_out1\"").unwrap();
    let v = text.find("\"id\":\"video1\"").unwrap();
    assert!(e < s && s < v);
}

#[test]
fn dangling_reference_rejected() {
    let json = Json::from_text(
        r#"[{"id":"a","properties":{"type":"grid","rows":1,"columns":2},"wires":{"out":["ghost.input"]}}]"#,
    )
    .unwrap();
    let error = Pipeline::from_json(&json).unwrap_err();
    assert_eq!(error.error, DecodeError::DanglingReference { node: "ghost".into() });
    assert_eq!(error.node, None);
    assert_eq!(error.message(), "Destination node `ghost` not found");
    assert!(error.message().contains("ghost"));
}

#[test]
fn first_dangling_reference_is_reported() {
    // Nodes are gone through in the order of their ids, pads in the order of
    // their names, sinks in the order of the list.
    let json = Json::from_text(
        r#"[
            {"id":"b","properties":{"type":"grid","rows":1,"columns":1},"wires":{"x":["late.in"]}},
            {"id":"a","properties":{"type":"grid","rows":1,"columns":1},
             "wires":{"z":["b.in","third.in"],"y":["a.in","second.in"],"w":["b.in"]}}
        ]"#,
    )
    .unwrap();
    assert_eq!(
        Pipeline::from_json(&json),
        Err(PipelineError::overall(DecodeError::DanglingReference { node: "second".into() }))
    );
}

#[test]
fn pad_name_of_a_wire_is_not_checked() {
    let json = Json::from_text(
        r#"[{"id":"a","properties":{"type":"grid","rows":1,"columns":2},"wires":{"out":["a.no_such_pad"]}}]"#,
    )
    .unwrap();
    assert!(Pipeline::from_json(&json).is_ok());
}

#[test]
fn duplicate_id_replacement() {
    let json = Json::from_text(
        r#"[{"id":"a","properties":{"type":"grid","rows":1,"columns":1}},
            {"id":"a","properties":{"type":"grid","rows":2,"columns":3}}]"#,
    )
    .unwrap();
    let pipeline = Pipeline::from_json(&json).unwrap();
    assert_eq!(pipeline.len(), 1);
    let node = pipeline.node_by_id("a").unwrap();
    match node.properties() {
        NodeProperties::Grid(grid) => {
            assert_eq!(grid.rows, 2);
            assert_eq!(grid.columns, 3);
        }
        other => panic!("not a grid: {:?}", other),
    }
}

#[test]
fn add_node_overwrites_same_id() {
    let mut pipeline = three_nodes();
    pipeline.add_node(Node::new("encode1", stream_rtsp_out_properties(), None));
    assert_eq!(pipeline.len(), 3);
    assert_eq!(
        pipeline.node_by_id("encode1").unwrap().properties(),
        &stream_rtsp_out_properties()
    );
    assert!(pipeline.node_by_id("missing").is_none());
    assert_eq!(pipeline.first_dangling(), None);
    pipeline.add_node(Node::new(
        "zz",
        encode_properties(),
        Some({
            let mut pads = SourcePads::new();
            pads.add(SourcePad {
                name: "o".into(),
                sinks: vec![SinkPad { node: "nowhere".into(), name: "i".into() }],
            });
            pads
        }),
    ));
    assert_eq!(pipeline.first_dangling(), Some("nowhere"));
}

#[test]
fn crop_micro_format() {
    let crop = Crop { top: 10, bottom: 20, left: 30, right: 40 };
    assert_eq!(crop.to_text(), "30:40:10:20");
    assert_eq!(Crop::from_str("30:40:10:20"), Ok(crop));
    assert_eq!("30:40:10:20".parse::<Crop>(), Ok(crop));
    assert_eq!("640x480".parse::<Resolution>(), Ok(Resolution { width: 640, height: 480 }));
    assert!("1:2:3".parse::<Crop>().is_err());
    assert_eq!(crop.to_json(), Json::Text("30:40:10:20".into()));
    assert_eq!(
        Crop::from_str("1:2:3"),
        Err(DecodeError::Malformed { shape: Shape::Crop, text: "1:2:3".into() })
    );
    assert!(Crop::from_str("1:2:3:4:5").is_err());
    assert!(Crop::from_str("1:2:3:x").is_err());
    assert!(Crop::from_str("1:2::4").is_err());
    assert!(Crop::from_str("1:2:3:-4").is_err());
    assert!(Crop::from_str("").is_err());
    assert_eq!(
        Crop::from_str("+1:002:3:4"),
        Ok(Crop { left: 1, right: 2, top: 3, bottom: 4 })
    );
    assert!(Crop::from_str("1:2:3:99999999999999999999999").is_err());
    assert_eq!(
        Crop::from_json(&Json::Number("5".into())),
        Err(DecodeError::Unexpected { expected: Expected::Text })
    );
    assert_eq!(
        Crop::from_str("1:2:3").unwrap_err().message(),
        "malformed text `1:2:3`, expected <left>:<right>:<top>:<bottom>"
    );
}

#[test]
fn resolution_micro_format() {
    let r = Resolution { width: 1280, height: 720 };
    assert_eq!(r.to_text(), "1280x720");
    assert_eq!(Resolution::from_str("1280x720"), Ok(r));
    assert_eq!(Resolution::from_str("0x0"), Ok(Resolution { width: 0, height: 0 }));
    assert_eq!(
        Resolution::from_str("4294967295x1"),
        Ok(Resolution { width: 4294967295, height: 1 })
    );
    assert!(Resolution::from_str("4294967296x1").is_err());
    assert_eq!(
        Resolution::from_str("1280"),
        Err(DecodeError::Malformed { shape: Shape::Resolution, text: "1280".into() })
    );
    assert!(Resolution::from_str("1x2x3").is_err());
    assert!(Resolution::from_str("x").is_err());
    assert!(Resolution::from_str("12X7").is_err());
    assert!(Resolution::from_str(" 1x2").is_err());
}

#[test]
fn sink_pad_token() {
    let pad = SinkPad::from_str("encode1.input").unwrap();
    assert_eq!(pad, SinkPad { node: "encode1".into(), name: "input".into() });
    assert_eq!(pad.to_text(), "encode1.input");
    // the token is cut at its first dot
    assert_eq!(
        SinkPad::from_str("a.b.c"),
        Ok(SinkPad { node: "a".into(), name: "b.c".into() })
    );
    for bad in ["", "nodot", ".pad", "node.", "."] {
        assert_eq!(
            SinkPad::from_str(bad),
            Err(DecodeError::Malformed { shape: Shape::SinkPad, text: bad.into() })
        );
    }
    // nothing is trimmed or folded
    assert_eq!(
        SinkPad::from_str(" A .b "),
        Ok(SinkPad { node: " A ".into(), name: "b ".into() })
    );
}

#[test]
fn unknown_discriminants_are_named() {
    let json = Json::from_text(
        r#"[{"id":"z","properties":{"type":"grid","rows":1,"columns":1}},
            {"id":"a","properties":{"type":"teleport"}}]"#,
    )
    .unwrap();
    let error = Pipeline::from_json(&json).unwrap_err();
    assert_eq!(
        error,
        PipelineError {
            node: Some(1),
            error: DecodeError::UnknownVariant {
                family: Family::NodeType,
                value: "teleport".into()
            }
        }
    );
    assert_eq!(
        error.message(),
        "node 1: unknown variant `teleport`, expected one of `video`, `encode`, `stream_rtsp_out`, `transform`, `grid`, `gst_template`"
    );
    let json = Json::from_text(
        r#"[{"id":"a","properties":{"type":"video","source_type":"webcam","source_id":"00000000-0000-0000-0000-000000000000"}}]"#,
    )
    .unwrap();
    assert_eq!(
        Pipeline::from_json(&json),
        Err(PipelineError {
            node: Some(0),
            error: DecodeError::UnknownVariant {
                family: Family::SourceType,
                value: "webcam".into()
            }
        })
    );
    let json = Json::from_text(r#"[{"id":"a","properties":{"rows":1}}]"#).unwrap();
    assert_eq!(
        Pipeline::from_json(&json),
        Err(PipelineError {
            node: Some(0),
            error: DecodeError::MissingField { field: "type".into() }
        })
    );
    let json = Json::from_text(r#"[{"properties":{"type":"grid","rows":1,"columns":1}}]"#).unwrap();
    assert_eq!(
        Pipeline::from_json(&json).unwrap_err().message(),
        "node 0: missing field `id`"
    );
    let json = Json::from_text(r#"[{"id":"a","properties":{"type":"grid","rows":1,"columns":1},"wires":{"o":["nodot"]}}]"#).unwrap();
    assert_eq!(
        Pipeline::from_json(&json),
        Err(PipelineError {
            node: Some(0),
            error: DecodeError::Malformed { shape: Shape::SinkPad, text: "nodot".into() }
        })
    );
    let json = Json::from_text(r#"{"id":"a"}"#).unwrap();
    assert_eq!(
        Pipeline::from_json(&json),
        Err(PipelineError::overall(DecodeError::Unexpected { expected: Expected::Array }))
    );
    assert_eq!(
        Pipeline::from_json_text("[").unwrap_err(),
        PipelineError::overall(DecodeError::InvalidText)
    );
}

fn stream_with(runtime: &str) -> VideoSourceProperties {
    let text = format!(
        r#"{{"source_type":"stream","source_id":"00000000-0000-0000-0000-000000000001",{}}}"#,
        runtime
    );
    match Json::from_text(&text).unwrap() {
        Json::Object(members) => VideoSourceProperties::from_members(&members).unwrap(),
        other => panic!("not an object: {:?}", other),
    }
}

#[test]
fn ambiguous_uri_projection() {
    let two = stream_with(r#""url_file":{"name":"clips","urls":["http://a.example/1","http://a.example/2"]}"#);
    assert_eq!(two.uri(), None);
    assert_eq!(two.name(), Some("clips"));
    let one = stream_with(r#""url_file":{"name":"clip","urls":["http://a.example/1"]}"#);
    assert_eq!(one.uri().map(|u| u.as_str()), Some("http://a.example/1"));
    let rtsp = stream_with(r#""rtsp":{"name":"live","uri":"rtsp://10.0.0.1/hd"}"#);
    assert_eq!(rtsp.uri().map(|u| u.as_str()), Some("rtsp://10.0.0.1/hd"));
    assert_eq!(rtsp.name(), Some("live"));
    let files = stream_with(r#""lumeo_file":{"name":"saved","file_ids":["f65c8128-e25a-11ec-b486-efa3b8212d7f"]}"#);
    assert_eq!(files.uri(), None);
    assert_eq!(files.name(), Some("saved"));
    let web = stream_with(r#""web_rtc":{}"#);
    assert_eq!(web.uri(), None);
    assert_eq!(web.name(), None);
    let none = stream_with(r#""fps":5"#);
    assert_eq!(none.uri(), None);
    assert_eq!(none.name(), None);
    assert_eq!(none.as_str(), "stream");
    // a list that must hold an item and holds none describes no runtime
    let empty = stream_with(r#""url_file":{"name":"clips","urls":[]}"#);
    match &empty {
        VideoSourceProperties::Stream(InputStreamProperties { runtime, .. }) => {
            assert!(runtime.is_none())
        }
        other => panic!("not a stream: {:?}", other),
    }
    let camera = video_properties();
    match &camera {
        NodeProperties::VideoSource(source) => {
            assert_eq!(source.uri().map(|u| u.as_str()), Some("file:///dev/video0"));
            assert_eq!(source.name(), Some("Qwerty 3000"));
            assert_eq!(source.as_str(), "camera");
        }
        other => panic!("not a video source: {:?}", other),
    }
}

#[test]
fn stream_runtimes_round_trip() {
    let urls = vec1::Vec1::try_from_vec(vec![
        Url::parse("http://a.example/1").unwrap(),
        Url::parse("file:///tmp/b.mp4").unwrap(),
    ])
    .unwrap();
    let source = VideoSourceProperties::Stream(InputStreamProperties {
        common: CommonVideoSourceProperties {
            source_id: Uuid::parse_str("f65c8128-e25a-11ec-b486-efa3b8212d7f").unwrap(),
            resolution: None,
            framerate: None,
            rotate: None,
            rotate_fixed_angle: None,
            flip: None,
            crop: None,
        },
        runtime: Some(InputStreamRuntime::UrlFile(InputUrlFileStreamRuntime {
            name: "clips".into(),
            urls,
        })),
    });
    let mut members = Vec::new();
    source.write_members(&mut members);
    let text = Json::Object(members).to_text();
    assert_eq!(
        text,
        r#"{"source_type":"stream","source_id":"f65c8128-e25a-11ec-b486-efa3b8212d7f","url_file":{"name":"clips","urls":["http://a.example/1","file:///tmp/b.mp4"]}}"#
    );
    match Json::from_text(&text).unwrap() {
        Json::Object(members) => {
            assert_eq!(VideoSourceProperties::from_members(&members), Ok(source))
        }
        other => panic!("not an object: {:?}", other),
    }
    let rtsp = InputStreamRuntime::Rtsp(InputRtspStreamRuntime {
        uri: Url::parse("rtsp://10.0.0.1/hd").unwrap(),
        name: "live".into(),
    });
    assert_eq!(rtsp.uri().map(|u| u.as_str()), Some("rtsp://10.0.0.1/hd"));
}

#[test]
fn file_runtime_and_rtsp_out_round_trip() {
    let json = Json::from_text(
        r#"[{"id":"in","properties":{"type":"video","source_type":"stream",
              "source_id":"00000000-0000-0000-0000-000000000001",
              "lumeo_file":{"name":"saved","file_ids":["f65c8128-e25a-11ec-b486-efa3b8212d7f","00000000-0000-0000-0000-000000000002"]}},
             "wires":{"video":["out.input"]}},
            {"id":"out","properties":{"type":"stream_rtsp_out","uri":"rtsp://127.0.0.1/x","stream_id":"00000000-0000-0000-0000-000000000003"}},
            {"id":"raw","properties":{"type":"gst_template","definition":"videoflip method={{m}}","props":{"m":"clockwise","n":[1,{"k":null}]}}},
            {"id":"bare","properties":{"type":"gst_template","definition":"identity"}}]"#,
    )
    .unwrap();
    let pipeline = Pipeline::from_json(&json).unwrap();
    let text = pipeline.to_json_text();
    assert!(text.contains(r#""lumeo_file":{"name":"saved","file_ids":["f65c8128-e25a-11ec-b486-efa3b8212d7f","00000000-0000-0000-0000-000000000002"]}"#));
    assert!(text.contains(r#""props":{"m":"clockwise","n":[1,{"k":null}]}"#));
    assert!(text.contains(r#"{"id":"bare","properties":{"type":"gst_template","definition":"identity","props":{}},"wires":{}}"#));
    assert_eq!(Pipeline::from_json_text(&text), Ok(pipeline));
    // a runtime that is not what it should be is left unset
    let json = Json::from_text(
        r#"[{"id":"out","properties":{"type":"stream_rtsp_out","uri":"rtsp://127.0.0.1/x","stream_id":"00000000-0000-0000-0000-000000000003","udp_port":65536}}]"#,
    )
    .unwrap();
    let pipeline = Pipeline::from_json(&json).unwrap();
    assert_eq!(
        pipeline.node_by_id("out").unwrap().properties(),
        &NodeProperties::StreamRtspOut(StreamRtspOutProperties { runtime: None })
    );
    assert_eq!(
        lumeo_api_client::decode::read_u16(&Json::Number("65536".into())),
        Err(DecodeError::Unexpected { expected: Expected::Unsigned16 })
    );
    assert_eq!(lumeo_api_client::decode::read_u16(&Json::Number("65535".into())), Ok(65535));
}

#[test]
fn framerate_alias() {
    // the common part of a video source falls back on `fps`
    let source = stream_with(r#""fps":5"#);
    match &source {
        VideoSourceProperties::Stream(s) => assert_eq!(s.common.framerate, Some(5)),
        other => panic!("not a stream: {:?}", other),
    }
    let source = stream_with(r#""fps":5,"framerate":7"#);
    match &source {
        VideoSourceProperties::Stream(s) => assert_eq!(s.common.framerate, Some(7)),
        other => panic!("not a stream: {:?}", other),
    }
    // a transform takes one of the two names, not both
    let read = |text: &str| match Json::from_text(text).unwrap() {
        Json::Object(members) => TransformProperties::from_members(&members),
        other => panic!("not an object: {:?}", other),
    };
    assert_eq!(read(r#"{"fps":5}"#).unwrap().framerate, Some(5));
    assert_eq!(read(r#"{"crop":"1:2:3:4"}"#).unwrap().crop_region, Some(Crop { left: 1, right: 2, top: 3, bottom: 4 }));
    assert_eq!(
        read(r#"{"fps":5,"framerate":7}"#),
        Err(DecodeError::DuplicateField { field: "framerate".into() })
    );
    assert_eq!(
        read(r#"{"framerate":7.5}"#),
        Err(DecodeError::Unexpected { expected: Expected::Unsigned32 })
    );
    assert_eq!(read(r#"{"framerate":null}"#).unwrap().framerate, None);
    assert_eq!(
        read(r#"{"resolution":"axb"}"#),
        Err(DecodeError::Malformed { shape: Shape::Resolution, text: "axb".into() })
    );
    assert_eq!(
        read(r#"{"flip_direction":"diagonal"}"#),
        Err(DecodeError::UnknownVariant { family: Family::FlipDirection, value: "diagonal".into() })
    );
    assert_eq!(
        read(r#"{"rotation":"90"}"#),
        Err(DecodeError::Unexpected { expected: Expected::Number })
    );
}

#[test]
fn rotate_direction_alias() {
    assert_eq!(RotateDirection::from_name("counter_clockwise180"), Some(RotateDirection::Clockwise180));
    assert_eq!(RotateDirection::from_name("clockwise180"), Some(RotateDirection::Clockwise180));
    assert_eq!(RotateDirection::Clockwise180.as_str(), "clockwise180");
    assert_eq!(
        write_named(RotateDirection::CounterClockwise90),
        Json::Text("counter_clockwise90".into())
    );
    assert_eq!(
        read_named::<RotateDirection>(&Json::Text("counter_clockwise180".into())),
        Ok(RotateDirection::Clockwise180)
    );
    assert_eq!(RotateDirection::from_name("Clockwise90"), None);
}

#[test]
fn json_text_is_read_and_written() {
    let value = Json::from_text(r#"{"b":[1,-2,3.5,"x",null,true],"a":{}}"#).unwrap();
    // members are written in the order in which they stand
    assert_eq!(value.to_text(), r#"{"b":[1,-2,3.5,"x",null,true],"a":{}}"#);
    // of two members with one key the later counts
    let twice = Json::from_text(r#"{"k":1,"j":2,"k":3}"#).unwrap();
    assert_eq!(twice.get("k"), Some(&Json::Number("3".into())));
    let built = Json::Object(vec![
        lumeo_api_client::json::Member { key: "k".into(), value: Json::Number("1".into()) },
        lumeo_api_client::json::Member { key: "k".into(), value: Json::Number("3".into()) },
    ]);
    assert_eq!(built.get("k"), Some(&Json::Number("3".into())));
    assert_eq!(built.to_text(), r#"{"k":3}"#);
    // a literal that is no number is written as null
    assert_eq!(Json::Number("abc".into()).to_text(), "null");
    assert_eq!(value.get("a"), Some(&Json::Object(vec![])));
    assert_eq!(value.get("c"), None);
    assert_eq!(Json::Null.get("a"), None);
    assert_eq!(Json::from_text("{"), None);
    assert_eq!(value.duplicate(), value);
    assert_eq!(value.clone(), value);
    match value.get("b").unwrap() {
        Json::Array(items) => {
            assert_eq!(items[0], Json::Number("1".into()));
            assert_eq!(items[1], Json::Number("-2".into()));
            assert_eq!(items[2], Json::Number("3.5".into()));
        }
        other => panic!("not an array: {:?}", other),
    }
}

#[test]
fn uuid_and_url_spellings() {
    let id = Uuid::parse_str("F65C8128-E25A-11EC-B486-EFA3B8212D7F").unwrap();
    assert_eq!(id.as_u128(), 0xf65c8128_e25a_11ec_b486_efa3b8212d7f);
    assert_eq!(id.to_hyphenated_string(), "f65c8128-e25a-11ec-b486-efa3b8212d7f");
    assert_eq!(Uuid::parse_str("f65c8128e25a11ecb486efa3b8212d7f"), Some(id));
    assert_eq!(Uuid::parse_str("g65c8128-e25a-11ec-b486-efa3b8212d7f"), None);
    assert_eq!(Uuid::nil().to_hyphenated_string(), "00000000-0000-0000-0000-000000000000");
    assert_eq!(Uuid::from_u128(7).as_u128(), 7);
    assert_eq!(
        Uuid::from_json(&Json::Text("nope".into())),
        Err(DecodeError::Malformed { shape: Shape::Uuid, text: "nope".into() })
    );
    let url = Url::parse("HTTP://Example.com").unwrap();
    assert_eq!(url.as_str(), "http://example.com/");
    assert_eq!(Url::parse(url.as_str()), Some(url.clone()));
    assert_eq!(Url::parse("not a url"), None);
    assert_eq!(url.to_json(), Json::Text("http://example.com/".into()));
    assert_eq!(
        Url::from_json(&Json::Text("::".into())),
        Err(DecodeError::Malformed { shape: Shape::Url, text: "::".into() })
    );
}

#[test]
fn nodes_are_kept_in_dictionary_order_of_any_ids() {
    let ids = [
        "m", "a", "z", "é", "ab", "", "a.b", "Z", "10", "9", "zz", "𝄞", "日本", "a", "m", "~", " ",
        "aa", "b", "é", "ß",
    ];
    let mut pipeline = Pipeline::new();
    let mut oracle = std::collections::BTreeMap::new();
    for (turn, id) in ids.iter().enumerate() {
        let properties = NodeProperties::Encode(EncodeProperties {
            codec: format!("codec{}", turn),
            max_bitrate: None,
            bitrate: None,
            quality: None,
            framerate: None,
        });
        pipeline.add_node(Node::new(id, properties.clone(), None));
        oracle.insert(id.to_string(), properties);
        assert_eq!(pipeline.len(), oracle.len());
    }
    let kept: Vec<(&str, &NodeProperties)> =
        pipeline.nodes().iter().map(|n| (n.id(), n.properties())).collect();
    let expected: Vec<(&str, &NodeProperties)> =
        oracle.iter().map(|(id, p)| (id.as_str(), p)).collect();
    assert_eq!(kept, expected);
    for id in ids {
        assert_eq!(pipeline.node_by_id(id).map(|n| n.properties()), oracle.get(id));
    }
    assert!(pipeline.node_by_id("absent").is_none());
    let back = Pipeline::from_json_text(&pipeline.to_json_text()).unwrap();
    assert_eq!(back, pipeline);
}

#[test]
fn pads_are_kept_by_name() {
    let mut pads = SourcePads::new();
    assert!(pads.is_empty());
    for name in ["video", "audio", "snapshot", "audio"] {
        pads.add(SourcePad {
            name: name.into(),
            sinks: vec![SinkPad { node: format!("to_{}", pads.len()), name: "in".into() }],
        });
    }
    assert_eq!(pads.len(), 3);
    let names: Vec<&str> = pads.all().iter().map(|p| p.name.as_str()).collect();
    assert_eq!(names, vec!["audio", "snapshot", "video"]);
    // the later pad of a name stays
    assert_eq!(pads.get("audio").unwrap().sinks[0].node, "to_3");
    assert!(pads.get("none").is_none());
    assert_eq!(
        pads.to_json().to_text(),
        r#"{"audio":["to_3.in"],"snapshot":["to_2.in"],"video":["to_0.in"]}"#
    );
    assert_eq!(SourcePads::from_json(&pads.to_json()), Ok(pads.clone()));
    assert_eq!(
        SourcePads::from_json(&Json::Array(vec![])),
        Err(DecodeError::Unexpected { expected: Expected::Object })
    );
    assert_eq!(
        SourcePads::from_json(&Json::from_text(r#"{"a":"b.c"}"#).unwrap()),
        Err(DecodeError::Unexpected { expected: Expected::Array })
    );
    assert_eq!(
        SourcePads::from_json(&Json::from_text(r#"{"a":[7]}"#).unwrap()),
        Err(DecodeError::Unexpected { expected: Expected::Text })
    );
}

#[test]
fn a_wire_to_a_dotted_node_does_not_read_back() {
    // The token of a sink pad is cut at its first dot, so a node with a dot
    // in its name cannot be the end of a wire that is read from a token.
    let pad = SinkPad { node: "a.b".into(), name: "in".into() };
    assert_eq!(pad.to_text(), "a.b.in");
    assert_eq!(SinkPad::from_str("a.b.in"), Ok(SinkPad { node: "a".into(), name: "b.in".into() }));
}

#[test]
fn the_first_runtime_in_the_object_counts() {
    let read = |text: &str| match Json::from_text(text).unwrap() {
        Json::Object(members) => VideoSourceProperties::from_members(&members).unwrap(),
        other => panic!("not an object: {:?}", other),
    };
    let head = r#""source_type":"camera","source_id":"00000000-0000-0000-0000-000000000001""#;
    let usb = r#""usb":{"uri":"file:///dev/video0","name":"u"}"#;
    let csi = r#""csi":{"uri":"file:///dev/video1","name":"c"}"#;
    assert_eq!(read(&format!("{{{},{},{}}}", head, usb, csi)).name(), Some("u"));
    assert_eq!(read(&format!("{{{},{},{}}}", head, csi, usb)).name(), Some("c"));
    assert_eq!(read(&format!("{{{},{}}}", csi, head)).name(), Some("c"));
    // the first one counts even if it describes nothing
    assert_eq!(read(&format!("{{{},\"usb\":7,{}}}", head, csi)).name(), None);
    let head = r#""source_type":"stream","source_id":"00000000-0000-0000-0000-000000000001""#;
    let rtsp = r#""rtsp":{"uri":"rtsp://10.0.0.1/hd","name":"live"}"#;
    let files = r#""url_file":{"name":"clip","urls":["http://a.example/1"]}"#;
    assert_eq!(read(&format!("{{{},{},{}}}", head, rtsp, files)).name(), Some("live"));
    assert_eq!(read(&format!("{{{},{},{}}}", head, files, rtsp)).name(), Some("clip"));
    assert_eq!(read(&format!("{{\"web_rtc\":{{}},{},{}}}", head, rtsp)).name(), None);
    // a camera does not look at the runtimes of streams
    let camera = r#""source_type":"camera","source_id":"00000000-0000-0000-0000-000000000001""#;
    assert_eq!(read(&format!("{{{},{},{}}}", camera, rtsp, usb)).name(), Some("u"));
}
