//! The vocabulary that describes inference models.

use vstd::prelude::*;

use crate::decode::Family;
use crate::named::Named;

verus! {

/// What a model does with a picture.
#[derive(Clone, Copy, Debug, PartialEq, Eq, Structural, Hash)]
pub enum Capability {
    Classification,
    Detection,
    Segmentation,
    Transformation,
    Other,
}

impl Named for Capability {
    open spec fn name(self) -> Seq<char> {
        match self {
            Capability::Classification => "classification"@,
            Capability::Detection => "detection"@,
            Capability::Segmentation => "segmentation"@,
            Capability::Transformation => "transformation"@,
            Capability::Other => "other"@,
        }
    }

    open spec fn named(name: Seq<char>) -> Option<Capability> {
        if name == "classification"@ {
            Some(Capability::Classification)
        } else if name == "detection"@ {
            Some(Capability::Detection)
        } else if name == "segmentation"@ {
            Some(Capability::Segmentation)
        } else if name == "transformation"@ {
            Some(Capability::Transformation)
        } else if name == "other"@ {
            Some(Capability::Other)
        } else {
            None
        }
    }

    open spec fn family() -> Family {
        Family::Capability
    }

    proof fn lemma_name_reads_back(self) {
        reveal_strlit("classification");
        reveal_strlit("detection");
        reveal_strlit("segmentation");
        reveal_strlit("transformation");
        reveal_strlit("other");
        assert("classification"@.len() == 14);
        assert("detection"@.len() == 9);
        assert("segmentation"@.len() == 12);
        assert("transformation"@.len() == 14);
        assert("other"@.len() == 5);
        assert("classification"@[0] == 'c');
        assert("transformation"@[0] == 't');
    }

    fn as_str(self) -> (out: &'static str) {
        match self {
            Capability::Classification => "classification",
            Capability::Detection => "detection",
            Capability::Segmentation => "segmentation",
            Capability::Transformation => "transformation",
            Capability::Other => "other",
        }
    }

    fn from_name(name: &str) -> (out: Option<Capability>) {
        if name.eq("classification") {
            Some(Capability::Classification)
        } else if name.eq("detection") {
            Some(Capability::Detection)
        } else if name.eq("segmentation") {
            Some(Capability::Segmentation)
        } else if name.eq("transformation") {
            Some(Capability::Transformation)
        } else if name.eq("other") {
            Some(Capability::Other)
        } else {
            None
        }
    }

    fn kind() -> (out: Family) {
        Family::Capability
    }
}

/// The network architecture of a model.
#[derive(Clone, Copy, Debug, PartialEq, Eq, Structural, Hash)]
pub enum Architecture {
    DetectNet,
    Frcnn,
    MobileNet,
    ResNet,
    Ssd,
    TinyYolo,
    Yolo,
    YoloV2,
    YoloV3,
    YoloV4,
    YoloV5,
    YoloV2Tiny,
    YoloV3Tiny,
    YoloV4Tiny,
}

impl Named for Architecture {
    open spec fn name(self) -> Seq<char> {
        match self {
            Architecture::DetectNet => "detectnet"@,
            Architecture::Frcnn => "frcnn"@,
            Architecture::MobileNet => "mobilenet"@,
            Architecture::ResNet => "resnet"@,
            Architecture::Ssd => "ssd"@,
            Architecture::TinyYolo => "tinyyolo"@,
            Architecture::Yolo => "yolo"@,
            Architecture::YoloV2 => "yolov2"@,
            Architecture::YoloV3 => "yolov3"@,
            Architecture::YoloV4 => "yolov4"@,
            Architecture::YoloV5 => "yolov5"@,
            Architecture::YoloV2Tiny => "yolov2_tiny"@,
            Architecture::YoloV3Tiny => "yolov3_tiny"@,
            Architecture::YoloV4Tiny => "yolov4_tiny"@,
        }
    }

    open spec fn named(name: Seq<char>) -> Option<Architecture> {
        if name == "detectnet"@ {
            Some(Architecture::DetectNet)
        } else if name == "frcnn"@ {
            Some(Architecture::Frcnn)
        } else if name == "mobilenet"@ {
            Some(Architecture::MobileNet)
        } else if name == "resnet"@ {
            Some(Architecture::ResNet)
        } else if name == "ssd"@ {
            Some(Architecture::Ssd)
        } else if name == "tinyyolo"@ {
            Some(Architecture::TinyYolo)
        } else if name == "yolo"@ {
            Some(Architecture::Yolo)
        } else if name == "yolov2"@ {
            Some(Architecture::YoloV2)
        } else if name == "yolov3"@ {
            Some(Architecture::YoloV3)
        } else if name == "yolov4"@ {
            Some(Architecture::YoloV4)
        } else if name == "yolov5"@ {
            Some(Architecture::YoloV5)
        } else if name == "yolov2_tiny"@ {
            Some(Architecture::YoloV2Tiny)
        } else if name == "yolov3_tiny"@ {
            Some(Architecture::YoloV3Tiny)
        } else if name == "yolov4_tiny"@ {
            Some(Architecture::YoloV4Tiny)
        } else {
            None
        }
    }

    open spec fn family() -> Family {
        Family::Architecture
    }

    proof fn lemma_name_reads_back(self) {
        reveal_strlit("detectnet");
        reveal_strlit("frcnn");
        reveal_strlit("mobilenet");
        reveal_strlit("resnet");
        reveal_strlit("ssd");
        reveal_strlit("tinyyolo");
        reveal_strlit("yolo");
        reveal_strlit("yolov2");
        reveal_strlit("yolov3");
        reveal_strlit("yolov4");
        reveal_strlit("yolov5");
        reveal_strlit("yolov2_tiny");
        reveal_strlit("yolov3_tiny");
        reveal_strlit("yolov4_tiny");
        assert("detectnet"@.len() == 9);
        assert("frcnn"@.len() == 5);
        assert("mobilenet"@.len() == 9);
        assert("resnet"@.len() == 6);
        assert("ssd"@.len() == 3);
        assert("tinyyolo"@.len() == 8);
        assert("yolo"@.len() == 4);
        assert("yolov2"@.len() == 6);
        assert("yolov3"@.len() == 6);
        assert("yolov4"@.len() == 6);
        assert("yolov5"@.len() == 6);
        assert("yolov2_tiny"@.len() == 11);
        assert("yolov3_tiny"@.len() == 11);
        assert("yolov4_tiny"@.len() == 11);
        assert("detectnet"@[0] == 'd');
        assert("mobilenet"@[0] == 'm');
        assert("resnet"@[0] == 'r');
        assert("yolov2"@[0] == 'y');
        assert("yolov3"@[0] == 'y');
        assert("yolov4"@[0] == 'y');
        assert("yolov5"@[0] == 'y');
        assert("yolov2"@[5] == '2');
        assert("yolov3"@[5] == '3');
        assert("yolov4"@[5] == '4');
        assert("yolov5"@[5] == '5');
        assert("yolov2_tiny"@[5] == '2');
        assert("yolov3_tiny"@[5] == '3');
        assert("yolov4_tiny"@[5] == '4');
    }

    fn as_str(self) -> (out: &'static str) {
        match self {
            Architecture::DetectNet => "detectnet",
            Architecture::Frcnn => "frcnn",
            Architecture::MobileNet => "mobilenet",
            Architecture::ResNet => "resnet",
            Architecture::Ssd => "ssd",
            Architecture::TinyYolo => "tinyyolo",
            Architecture::Yolo => "yolo",
            Architecture::YoloV2 => "yolov2",
            Architecture::YoloV3 => "yolov3",
            Architecture::YoloV4 => "yolov4",
            Architecture::YoloV5 => "yolov5",
            Architecture::YoloV2Tiny => "yolov2_tiny",
            Architecture::YoloV3Tiny => "yolov3_tiny",
            Architecture::YoloV4Tiny => "yolov4_tiny",
        }
    }

    fn from_name(name: &str) -> (out: Option<Architecture>) {
        if name.eq("detectnet") {
            Some(Architecture::DetectNet)
        } else if name.eq("frcnn") {
            Some(Architecture::Frcnn)
        } else if name.eq("mobilenet") {
            Some(Architecture::MobileNet)
        } else if name.eq("resnet") {
            Some(Architecture::ResNet)
        } else if name.eq("ssd") {
            Some(Architecture::Ssd)
        } else if name.eq("tinyyolo") {
            Some(Architecture::TinyYolo)
        } else if name.eq("yolo") {
            Some(Architecture::Yolo)
        } else if name.eq("yolov2") {
            Some(Architecture::YoloV2)
        } else if name.eq("yolov3") {
            Some(Architecture::YoloV3)
        } else if name.eq("yolov4") {
            Some(Architecture::YoloV4)
        } else if name.eq("yolov5") {
            Some(Architecture::YoloV5)
        } else if name.eq("yolov2_tiny") {
            Some(Architecture::YoloV2Tiny)
        } else if name.eq("yolov3_tiny") {
            Some(Architecture::YoloV3Tiny)
        } else if name.eq("yolov4_tiny") {
            Some(Architecture::YoloV4Tiny)
        } else {
            None
        }
    }

    fn kind() -> (out: Family) {
        Family::Architecture
    }
}

/// The file format of a model's weights.
#[derive(Clone, Copy, Debug, PartialEq, Eq, Structural, Hash)]
pub enum Format {
    Caffe,
    Etlt,
    YoloNative,
    Onnx,
    Uff,
    TensorFlow,
    OpenVino,
}

impl Named for Format {
    open spec fn name(self) -> Seq<char> {
        match self {
            Format::Caffe => "caffe"@,
            Format::Etlt => "etlt"@,
            Format::YoloNative => "yolonative"@,
            Format::Onnx => "onnx"@,
            Format::Uff => "uff"@,
            Format::TensorFlow => "tensorflow"@,
            Format::OpenVino => "openvino"@,
        }
    }

    open spec fn named(name: Seq<char>) -> Option<Format> {
        if name == "caffe"@ {
            Some(Format::Caffe)
        } else if name == "etlt"@ {
            Some(Format::Etlt)
        } else if name == "yolonative"@ {
            Some(Format::YoloNative)
        } else if name == "onnx"@ {
            Some(Format::Onnx)
        } else if name == "uff"@ {
            Some(Format::Uff)
        } else if name == "tensorflow"@ {
            Some(Format::TensorFlow)
        } else if name == "openvino"@ {
            Some(Format::OpenVino)
        } else {
            None
        }
    }

    open spec fn family() -> Family {
        Family::Format
    }

    proof fn lemma_name_reads_back(self) {
        reveal_strlit("caffe");
        reveal_strlit("etlt");
        reveal_strlit("yolonative");
        reveal_strlit("onnx");
        reveal_strlit("uff");
        reveal_strlit("tensorflow");
        reveal_strlit("openvino");
        assert("caffe"@.len() == 5);
        assert("etlt"@.len() == 4);
        assert("yolonative"@.len() == 10);
        assert("onnx"@.len() == 4);
        assert("uff"@.len() == 3);
        assert("tensorflow"@.len() == 10);
        assert("openvino"@.len() == 8);
        assert("etlt"@[0] == 'e');
        assert("onnx"@[0] == 'o');
        assert("yolonative"@[0] == 'y');
        assert("tensorflow"@[0] == 't');
    }

    fn as_str(self) -> (out: &'static str) {
        match self {
            Format::Caffe => "caffe",
            Format::Etlt => "etlt",
            Format::YoloNative => "yolonative",
            Format::Onnx => "onnx",
            Format::Uff => "uff",
            Format::TensorFlow => "tensorflow",
            Format::OpenVino => "openvino",
        }
    }

    fn from_name(name: &str) -> (out: Option<Format>) {
        if name.eq("caffe") {
            Some(Format::Caffe)
        } else if name.eq("etlt") {
            Some(Format::Etlt)
        } else if name.eq("yolonative") {
            Some(Format::YoloNative)
        } else if name.eq("onnx") {
            Some(Format::Onnx)
        } else if name.eq("uff") {
            Some(Format::Uff)
        } else if name.eq("tensorflow") {
            Some(Format::TensorFlow)
        } else if name.eq("openvino") {
            Some(Format::OpenVino)
        } else {
            None
        }
    }

    fn kind() -> (out: Family) {
        Family::Format
    }
}

/// The order of colour channels that a model takes.
#[derive(Clone, Copy, Debug, PartialEq, Eq, Structural, Hash)]
pub enum ModelColorFormat {
    Rgb,
    Bgr,
    Grayscale,
}

impl Named for ModelColorFormat {
    open spec fn name(self) -> Seq<char> {
        match self {
            ModelColorFormat::Rgb => "rgb"@,
            ModelColorFormat::Bgr => "bgr"@,
            ModelColorFormat::Grayscale => "grayscale"@,
        }
    }

    open spec fn named(name: Seq<char>) -> Option<ModelColorFormat> {
        if name == "rgb"@ || name == "r_g_b"@ {
            Some(ModelColorFormat::Rgb)
        } else if name == "bgr"@ || name == "b_g_r"@ {
            Some(ModelColorFormat::Bgr)
        } else if name == "grayscale"@ {
            Some(ModelColorFormat::Grayscale)
        } else {
            None
        }
    }

    open spec fn family() -> Family {
        Family::ModelColorFormat
    }

    proof fn lemma_name_reads_back(self) {
        reveal_strlit("rgb");
        reveal_strlit("r_g_b");
        reveal_strlit("bgr");
        reveal_strlit("b_g_r");
        reveal_strlit("grayscale");
        assert("rgb"@.len() == 3);
        assert("r_g_b"@.len() == 5);
        assert("bgr"@.len() == 3);
        assert("b_g_r"@.len() == 5);
        assert("grayscale"@.len() == 9);
        assert("rgb"@[0] == 'r');
        assert("bgr"@[0] == 'b');
        assert("r_g_b"@[0] == 'r');
        assert("b_g_r"@[0] == 'b');
    }

    fn as_str(self) -> (out: &'static str) {
        match self {
            ModelColorFormat::Rgb => "rgb",
            ModelColorFormat::Bgr => "bgr",
            ModelColorFormat::Grayscale => "grayscale",
        }
    }

    fn from_name(name: &str) -> (out: Option<ModelColorFormat>) {
        if name.eq("rgb") || name.eq("r_g_b") {
            Some(ModelColorFormat::Rgb)
        } else if name.eq("bgr") || name.eq("b_g_r") {
            Some(ModelColorFormat::Bgr)
        } else if name.eq("grayscale") {
            Some(ModelColorFormat::Grayscale)
        } else {
            None
        }
    }

    fn kind() -> (out: Family) {
        Family::ModelColorFormat
    }
}

/// The numeric precision a model runs at.
#[derive(Clone, Copy, Debug, PartialEq, Eq, Structural, Hash)]
pub enum ModelNetworkMode {
    Float32,
    Int8,
    Float16,
}

impl Named for ModelNetworkMode {
    open spec fn name(self) -> Seq<char> {
        match self {
            ModelNetworkMode::Float32 => "float32"@,
            ModelNetworkMode::Int8 => "int8"@,
            ModelNetworkMode::Float16 => "float16"@,
        }
    }

    open spec fn named(name: Seq<char>) -> Option<ModelNetworkMode> {
        if name == "float32"@ {
            Some(ModelNetworkMode::Float32)
        } else if name == "int8"@ {
            Some(ModelNetworkMode::Int8)
        } else if name == "float16"@ {
            Some(ModelNetworkMode::Float16)
        } else {
            None
        }
    }

    open spec fn family() -> Family {
        Family::ModelNetworkMode
    }

    proof fn lemma_name_reads_back(self) {
        reveal_strlit("float32");
        reveal_strlit("int8");
        reveal_strlit("float16");
        assert("float32"@.len() == 7);
        assert("int8"@.len() == 4);
        assert("float16"@.len() == 7);
        assert("float32"@[5] == '3');
        assert("float16"@[5] == '1');
    }

    fn as_str(self) -> (out: &'static str) {
        match self {
            ModelNetworkMode::Float32 => "float32",
            ModelNetworkMode::Int8 => "int8",
            ModelNetworkMode::Float16 => "float16",
        }
    }

    fn from_name(name: &str) -> (out: Option<ModelNetworkMode>) {
        if name.eq("float32") {
            Some(ModelNetworkMode::Float32)
        } else if name.eq("int8") {
            Some(ModelNetworkMode::Int8)
        } else if name.eq("float16") {
            Some(ModelNetworkMode::Float16)
        } else {
            None
        }
    }

    fn kind() -> (out: Family) {
        Family::ModelNetworkMode
    }
}

/// The order of the dimensions of a model's input.
#[derive(Clone, Copy, Debug, PartialEq, Eq, Structural, Hash)]
pub enum ModelInputOrder {
    Nchw,
    Nhwc,
    Nc,
}

impl Named for ModelInputOrder {
    open spec fn name(self) -> Seq<char> {
        match self {
            ModelInputOrder::Nchw => "nchw"@,
            ModelInputOrder::Nhwc => "nhwc"@,
            ModelInputOrder::Nc => "nc"@,
        }
    }

    open spec fn named(name: Seq<char>) -> Option<ModelInputOrder> {
        if name == "nchw"@ || name == "n_c_h_w"@ {
            Some(ModelInputOrder::Nchw)
        } else if name == "nhwc"@ || name == "n_h_w_c"@ {
            Some(ModelInputOrder::Nhwc)
        } else if name == "nc"@ || name == "n_c"@ {
            Some(ModelInputOrder::Nc)
        } else {
            None
        }
    }

    open spec fn family() -> Family {
        Family::ModelInputOrder
    }

    proof fn lemma_name_reads_back(self) {
        reveal_strlit("nchw");
        reveal_strlit("n_c_h_w");
        reveal_strlit("nhwc");
        reveal_strlit("n_h_w_c");
        reveal_strlit("nc");
        reveal_strlit("n_c");
        assert("nchw"@.len() == 4);
        assert("n_c_h_w"@.len() == 7);
        assert("nhwc"@.len() == 4);
        assert("n_h_w_c"@.len() == 7);
        assert("nc"@.len() == 2);
        assert("n_c"@.len() == 3);
        assert("nchw"@[1] == 'c');
        assert("nhwc"@[1] == 'h');
        assert("n_c_h_w"@[2] == 'c');
        assert("n_h_w_c"@[2] == 'h');
    }

    fn as_str(self) -> (out: &'static str) {
        match self {
            ModelInputOrder::Nchw => "nchw",
            ModelInputOrder::Nhwc => "nhwc",
            ModelInputOrder::Nc => "nc",
        }
    }

    fn from_name(name: &str) -> (out: Option<ModelInputOrder>) {
        if name.eq("nchw") || name.eq("n_c_h_w") {
            Some(ModelInputOrder::Nchw)
        } else if name.eq("nhwc") || name.eq("n_h_w_c") {
            Some(ModelInputOrder::Nhwc)
        } else if name.eq("nc") || name.eq("n_c") {
            Some(ModelInputOrder::Nc)
        } else {
            None
        }
    }

    fn kind() -> (out: Family) {
        Family::ModelInputOrder
    }
}

/// How a detector's boxes are merged.
#[derive(Clone, Copy, Debug, PartialEq, Eq, Structural, Hash)]
pub enum ClusterMode {
    OpenCvGroupRectangles,
    Dbscan,
    Nms,
    DbscanNmsHybrid,
    NoClustering,
}

impl Named for ClusterMode {
    open spec fn name(self) -> Seq<char> {
        match self {
            ClusterMode::OpenCvGroupRectangles => "open_cv_group_rectangles"@,
            ClusterMode::Dbscan => "dbscan"@,
            ClusterMode::Nms => "nms"@,
            ClusterMode::DbscanNmsHybrid => "dbscan_nms_hybrid"@,
            ClusterMode::NoClustering => "no_clustering"@,
        }
    }

    open spec fn named(name: Seq<char>) -> Option<ClusterMode> {
        if name == "open_cv_group_rectangles"@ {
            Some(ClusterMode::OpenCvGroupRectangles)
        } else if name == "dbscan"@ {
            Some(ClusterMode::Dbscan)
        } else if name == "nms"@ {
            Some(ClusterMode::Nms)
        } else if name == "dbscan_nms_hybrid"@ {
            Some(ClusterMode::DbscanNmsHybrid)
        } else if name == "no_clustering"@ {
            Some(ClusterMode::NoClustering)
        } else {
            None
        }
    }

    open spec fn family() -> Family {
        Family::ClusterMode
    }

    proof fn lemma_name_reads_back(self) {
        reveal_strlit("open_cv_group_rectangles");
        reveal_strlit("dbscan");
        reveal_strlit("nms");
        reveal_strlit("dbscan_nms_hybrid");
        reveal_strlit("no_clustering");
        assert("open_cv_group_rectangles"@.len() == 24);
        assert("dbscan"@.len() == 6);
        assert("nms"@.len() == 3);
        assert("dbscan_nms_hybrid"@.len() == 17);
        assert("no_clustering"@.len() == 13);
    }

    fn as_str(self) -> (out: &'static str) {
        match self {
            ClusterMode::OpenCvGroupRectangles => "open_cv_group_rectangles",
            ClusterMode::Dbscan => "dbscan",
            ClusterMode::Nms => "nms",
            ClusterMode::DbscanNmsHybrid => "dbscan_nms_hybrid",
            ClusterMode::NoClustering => "no_clustering",
        }
    }

    fn from_name(name: &str) -> (out: Option<ClusterMode>) {
        if name.eq("open_cv_group_rectangles") {
            Some(ClusterMode::OpenCvGroupRectangles)
        } else if name.eq("dbscan") {
            Some(ClusterMode::Dbscan)
        } else if name.eq("nms") {
            Some(ClusterMode::Nms)
        } else if name.eq("dbscan_nms_hybrid") {
            Some(ClusterMode::DbscanNmsHybrid)
        } else if name.eq("no_clustering") {
            Some(ClusterMode::NoClustering)
        } else {
            None
        }
    }

    fn kind() -> (out: Family) {
        Family::ClusterMode
    }
}

} // verus!
