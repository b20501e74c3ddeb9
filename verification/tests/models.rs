use lumeo_api_client::decode::{DecodeError, Expected, Family};
use lumeo_api_client::deployments::State;
use lumeo_api_client::json::Json;
use lumeo_api_client::named::{read_named, write_named, Named};
use lumeo_api_client::models::{
    Architecture, Capability, ClusterMode, Format, ModelColorFormat, ModelInputOrder,
    ModelNetworkMode,
};
use lumeo_api_client::streams::{StreamSource, StreamStatus, StreamType};

fn json(text: &str) -> Json {
    Json::Text(text.to_string())
}

#[test]
fn should_deserialize_capability() {
    assert_eq!(Ok(Capability::Classification), read_named::<Capability>(&json("classification")));
    assert_eq!(Ok(Capability::Detection), read_named::<Capability>(&json("detection")));
    assert_eq!(Ok(Capability::Segmentation), read_named::<Capability>(&json("segmentation")));
    assert_eq!(Ok(Capability::Transformation), read_named::<Capability>(&json("transformation")));
    assert_eq!(Ok(Capability::Other), read_named::<Capability>(&json("other")));
}

#[test]
fn should_serialize_capability() {
    assert_eq!(json("classification"), write_named(Capability::Classification));
    assert_eq!(json("detection"), write_named(Capability::Detection));
    assert_eq!(json("segmentation"), write_named(Capability::Segmentation));
    assert_eq!(json("transformation"), write_named(Capability::Transformation));
    assert_eq!(json("other"), write_named(Capability::Other));
}

#[test]
fn should_deserialize_architecture() {
    assert_eq!(Ok(Architecture::DetectNet), read_named::<Architecture>(&json("detectnet")));
    assert_eq!(Ok(Architecture::Frcnn), read_named::<Architecture>(&json("frcnn")));
    assert_eq!(Ok(Architecture::MobileNet), read_named::<Architecture>(&json("mobilenet")));
    assert_eq!(Ok(Architecture::ResNet), read_named::<Architecture>(&json("resnet")));
    assert_eq!(Ok(Architecture::Ssd), read_named::<Architecture>(&json("ssd")));
    assert_eq!(Ok(Architecture::TinyYolo), read_named::<Architecture>(&json("tinyyolo")));
    assert_eq!(Ok(Architecture::Yolo), read_named::<Architecture>(&json("yolo")));
    assert_eq!(Ok(Architecture::YoloV2), read_named::<Architecture>(&json("yolov2")));
    assert_eq!(Ok(Architecture::YoloV3), read_named::<Architecture>(&json("yolov3")));
    assert_eq!(Ok(Architecture::YoloV4), read_named::<Architecture>(&json("yolov4")));
    assert_eq!(Ok(Architecture::YoloV5), read_named::<Architecture>(&json("yolov5")));
    assert_eq!(Ok(Architecture::YoloV2Tiny), read_named::<Architecture>(&json("yolov2_tiny")));
    assert_eq!(Ok(Architecture::YoloV3Tiny), read_named::<Architecture>(&json("yolov3_tiny")));
    assert_eq!(Ok(Architecture::YoloV4Tiny), read_named::<Architecture>(&json("yolov4_tiny")));
}

#[test]
fn should_serialize_architecture() {
    assert_eq!(json("detectnet"), write_named(Architecture::DetectNet));
    assert_eq!(json("frcnn"), write_named(Architecture::Frcnn));
    assert_eq!(json("mobilenet"), write_named(Architecture::MobileNet));
    assert_eq!(json("resnet"), write_named(Architecture::ResNet));
    assert_eq!(json("ssd"), write_named(Architecture::Ssd));
    assert_eq!(json("tinyyolo"), write_named(Architecture::TinyYolo));
    assert_eq!(json("yolo"), write_named(Architecture::Yolo));
    assert_eq!(json("yolov2"), write_named(Architecture::YoloV2));
    assert_eq!(json("yolov3"), write_named(Architecture::YoloV3));
    assert_eq!(json("yolov4"), write_named(Architecture::YoloV4));
    assert_eq!(json("yolov5"), write_named(Architecture::YoloV5));
    assert_eq!(json("yolov2_tiny"), write_named(Architecture::YoloV2Tiny));
    assert_eq!(json("yolov3_tiny"), write_named(Architecture::YoloV3Tiny));
    assert_eq!(json("yolov4_tiny"), write_named(Architecture::YoloV4Tiny));
}

#[test]
fn should_deserialize_format() {
    assert_eq!(Ok(Format::Caffe), read_named::<Format>(&json("caffe")));
    assert_eq!(Ok(Format::Etlt), read_named::<Format>(&json("etlt")));
    assert_eq!(Ok(Format::YoloNative), read_named::<Format>(&json("yolonative")));
    assert_eq!(Ok(Format::Onnx), read_named::<Format>(&json("onnx")));
    assert_eq!(Ok(Format::Uff), read_named::<Format>(&json("uff")));
    assert_eq!(Ok(Format::TensorFlow), read_named::<Format>(&json("tensorflow")));
    assert_eq!(Ok(Format::OpenVino), read_named::<Format>(&json("openvino")));
}

#[test]
fn should_serialize_format() {
    assert_eq!(json("caffe"), write_named(Format::Caffe));
    assert_eq!(json("etlt"), write_named(Format::Etlt));
    assert_eq!(json("yolonative"), write_named(Format::YoloNative));
    assert_eq!(json("onnx"), write_named(Format::Onnx));
    assert_eq!(json("uff"), write_named(Format::Uff));
    assert_eq!(json("tensorflow"), write_named(Format::TensorFlow));
    assert_eq!(json("openvino"), write_named(Format::OpenVino));
}

#[test]
fn should_deserialize_color_format() {
    assert_eq!(Ok(ModelColorFormat::Rgb), read_named::<ModelColorFormat>(&json("rgb")));
    assert_eq!(Ok(ModelColorFormat::Rgb), read_named::<ModelColorFormat>(&json("r_g_b")));
    assert_eq!(Ok(ModelColorFormat::Bgr), read_named::<ModelColorFormat>(&json("bgr")));
    assert_eq!(Ok(ModelColorFormat::Bgr), read_named::<ModelColorFormat>(&json("b_g_r")));
    assert_eq!(Ok(ModelColorFormat::Grayscale), read_named::<ModelColorFormat>(&json("grayscale")));
}

#[test]
fn should_serialize_color_format() {
    assert_eq!(json("rgb"), write_named(ModelColorFormat::Rgb));
    assert_eq!(json("bgr"), write_named(ModelColorFormat::Bgr));
    assert_eq!(json("grayscale"), write_named(ModelColorFormat::Grayscale));
}

#[test]
fn should_deserialize_network_mode() {
    assert_eq!(Ok(ModelNetworkMode::Float32), read_named::<ModelNetworkMode>(&json("float32")));
    assert_eq!(Ok(ModelNetworkMode::Int8), read_named::<ModelNetworkMode>(&json("int8")));
    assert_eq!(Ok(ModelNetworkMode::Float16), read_named::<ModelNetworkMode>(&json("float16")));
}

#[test]
fn should_serialize_network_mode() {
    assert_eq!(json("float32"), write_named(ModelNetworkMode::Float32));
    assert_eq!(json("int8"), write_named(ModelNetworkMode::Int8));
    assert_eq!(json("float16"), write_named(ModelNetworkMode::Float16));
}

#[test]
fn should_deserialize_input_order() {
    assert_eq!(Ok(ModelInputOrder::Nchw), read_named::<ModelInputOrder>(&json("nchw")));
    assert_eq!(Ok(ModelInputOrder::Nchw), read_named::<ModelInputOrder>(&json("n_c_h_w")));
    assert_eq!(Ok(ModelInputOrder::Nhwc), read_named::<ModelInputOrder>(&json("nhwc")));
    assert_eq!(Ok(ModelInputOrder::Nhwc), read_named::<ModelInputOrder>(&json("n_h_w_c")));
    assert_eq!(Ok(ModelInputOrder::Nc), read_named::<ModelInputOrder>(&json("nc")));
    assert_eq!(Ok(ModelInputOrder::Nc), read_named::<ModelInputOrder>(&json("n_c")));
}

#[test]
fn should_serialize_input_order() {
    assert_eq!(json("nchw"), write_named(ModelInputOrder::Nchw));
    assert_eq!(json("nhwc"), write_named(ModelInputOrder::Nhwc));
    assert_eq!(json("nc"), write_named(ModelInputOrder::Nc));
}

#[test]
fn should_deserialize_cluster_mode() {
    assert_eq!(Ok(ClusterMode::OpenCvGroupRectangles), read_named::<ClusterMode>(&json("open_cv_group_rectangles")));
    assert_eq!(Ok(ClusterMode::Dbscan), read_named::<ClusterMode>(&json("dbscan")));
    assert_eq!(Ok(ClusterMode::Nms), read_named::<ClusterMode>(&json("nms")));
    assert_eq!(Ok(ClusterMode::DbscanNmsHybrid), read_named::<ClusterMode>(&json("dbscan_nms_hybrid")));
    assert_eq!(Ok(ClusterMode::NoClustering), read_named::<ClusterMode>(&json("no_clustering")));
}

#[test]
fn should_serialize_cluster_mode() {
    assert_eq!(json("open_cv_group_rectangles"), write_named(ClusterMode::OpenCvGroupRectangles));
    assert_eq!(json("dbscan"), write_named(ClusterMode::Dbscan));
    assert_eq!(json("nms"), write_named(ClusterMode::Nms));
    assert_eq!(json("dbscan_nms_hybrid"), write_named(ClusterMode::DbscanNmsHybrid));
    assert_eq!(json("no_clustering"), write_named(ClusterMode::NoClustering));
}

#[test]
fn legacy_alias_is_read_and_never_written() {
    let legacy = ModelColorFormat::from_name("r_g_b").unwrap();
    assert_eq!(legacy, ModelColorFormat::from_name("rgb").unwrap());
    assert_eq!(legacy.as_str(), "rgb");
    assert_eq!(write_named(legacy).to_text(), "\"rgb\"");
    for value in [ModelColorFormat::Rgb, ModelColorFormat::Bgr, ModelColorFormat::Grayscale] {
        assert_eq!(ModelColorFormat::from_name(value.as_str()), Some(value));
    }
}

#[test]
fn unknown_names_are_refused() {
    assert_eq!(
        read_named::<Capability>(&json("Classification")),
        Err(DecodeError::UnknownVariant { family: Family::Capability, value: "Classification".into() })
    );
    assert_eq!(
        read_named::<Capability>(&Json::Null),
        Err(DecodeError::Unexpected { expected: Expected::Text })
    );
    assert_eq!(Architecture::from_name("yolov6"), None);
    assert_eq!(
        read_named::<Capability>(&json("x")).unwrap_err().message(),
        "unknown variant `x`, expected one of `classification`, `detection`, `segmentation`, `transformation`, `other`"
    );
}

#[test]
fn states_and_streams_have_names() {
    assert_eq!(State::Stopped.as_str(), "stopped");
    assert_eq!(State::from_name("interrupted"), Some(State::Interrupted));
    assert_eq!(read_named::<State>(&json("running")), Ok(State::Running));
    assert_eq!(StreamType::Webrtc.as_str(), "webrtc");
    assert_eq!(StreamType::from_name("file"), Some(StreamType::File));
    assert_eq!(write_named(StreamSource::PipelineStream), json("pipeline_stream"));
    assert_eq!(StreamStatus::from_name("online"), Some(StreamStatus::Online));
    assert_eq!(StreamStatus::Unknown.as_str(), "unknown");
}
