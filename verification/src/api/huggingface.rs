use crate::utils::utils::{fmt_num, spec_fmt_num};
use vstd::prelude::*;
use vstd::string::*;

verus! {

/// The task category of a model, as the model hub reports it.
#[derive(Debug, Clone, Copy, PartialEq, Eq, Structural)]
pub enum PipelineTag {
    TextClassification,
    TokenClassification,
    TableQuestionAnswering,
    QuestionAnswering,
    ZeroShotClassification,
    Translation,
    Summarization,
    FeatureExtraction,
    TextGeneration,
    Text2TextGeneration,
    FillMask,
    SentenceSimilarity,
    TexttoSpeech,
    TexttoAudio,
    AutomaticSpeechRecognition,
    AudiotoAudio,
    AudioClassification,
    AudioTexttoText,
    VoiceActivityDetection,
    DepthEstimation,
    ImageClassification,
    ObjectDetection,
    ImageSegmentation,
    TexttoImage,
    ImagetoText,
    ImagetoImage,
    ImagetoVideo,
    UnconditionalImageGeneration,
    VideoClassification,
    ReinforcementLearning,
    Robotics,
    TabularClassification,
    TabularRegression,
    TabulartoText,
    TabletoText,
    MultipleChoice,
    TextRanking,
    TextRetrieval,
    TimeSeriesForecasting,
    TexttoVideo,
    ImageTexttoText,
    VisualQuestionAnswering,
    DocumentQuestionAnswering,
    ZeroShotImageClassification,
    GraphMachineLearning,
    MaskGeneration,
    ZeroShotObjectDetection,
    Textto3D,
    Imageto3D,
    ImageFeatureExtraction,
    VideoTexttoText,
    KeypointDetection,
    VisualDocumentRetrieval,
    AnytoAny,
    Other,
}

/// Display label of each task category.
pub open spec fn spec_pipeline_tag_label(t: PipelineTag) -> Seq<char> {
    match t {
        PipelineTag::TextClassification => "Text Classification"@,
        PipelineTag::TokenClassification => "Token Classification"@,
        PipelineTag::TableQuestionAnswering => "Table Question Answering"@,
        PipelineTag::QuestionAnswering => "Question Answering"@,
        PipelineTag::ZeroShotClassification => "Zero-Shot Classification"@,
        PipelineTag::Translation => "Translation"@,
        PipelineTag::Summarization => "Summarization"@,
        PipelineTag::FeatureExtraction => "Feature Extraction"@,
        PipelineTag::TextGeneration => "Text Generation"@,
        PipelineTag::Text2TextGeneration => "Text2Text Generation"@,
        PipelineTag::FillMask => "Fill-Mask"@,
        PipelineTag::SentenceSimilarity => "Sentence Similarity"@,
        PipelineTag::TexttoSpeech => "Text-to-Speech"@,
        PipelineTag::TexttoAudio => "Text-to-Audio"@,
        PipelineTag::AutomaticSpeechRecognition => "Automatic Speech Recognition"@,
        PipelineTag::AudiotoAudio => "Audio-to-Audio"@,
        PipelineTag::AudioClassification => "Audio Classification"@,
        PipelineTag::AudioTexttoText => "Audio-Text-to-Text"@,
        PipelineTag::VoiceActivityDetection => "Voice Activity Detection"@,
        PipelineTag::DepthEstimation => "Depth Estimation"@,
        PipelineTag::ImageClassification => "Image Classification"@,
        PipelineTag::ObjectDetection => "Object Detection"@,
        PipelineTag::ImageSegmentation => "Image Segmentation"@,
        PipelineTag::TexttoImage => "Text-to-Image"@,
        PipelineTag::ImagetoText => "Image-to-Text"@,
        PipelineTag::ImagetoImage => "Image-to-Image"@,
        PipelineTag::ImagetoVideo => "Image-to-Video"@,
        PipelineTag::UnconditionalImageGeneration => "Unconditional Image Generation"@,
        PipelineTag::VideoClassification => "Video Classification"@,
        PipelineTag::ReinforcementLearning => "Reinforcement Learning"@,
        PipelineTag::Robotics => "Robotics"@,
        PipelineTag::TabularClassification => "Tabular Classification"@,
        PipelineTag::TabularRegression => "Tabular Regression"@,
        PipelineTag::TabulartoText => "Tabular to Text"@,
        PipelineTag::TabletoText => "Table to Text"@,
        PipelineTag::MultipleChoice => "Multiple Choice"@,
        PipelineTag::TextRanking => "Text Ranking"@,
        PipelineTag::TextRetrieval => "Text Retrieval"@,
        PipelineTag::TimeSeriesForecasting => "Time Series Forecasting"@,
        PipelineTag::TexttoVideo => "Text-to-Video"@,
        PipelineTag::ImageTexttoText => "Image-Text-to-Text"@,
        PipelineTag::VisualQuestionAnswering => "Visual Question Answering"@,
        PipelineTag::DocumentQuestionAnswering => "Document Question Answering"@,
        PipelineTag::ZeroShotImageClassification => "Zero-Shot Image Classification"@,
        PipelineTag::GraphMachineLearning => "Graph Machine Learning"@,
        PipelineTag::MaskGeneration => "Mask Generation"@,
        PipelineTag::ZeroShotObjectDetection => "Zero-Shot Object Detection"@,
        PipelineTag::Textto3D => "Text-to-3D"@,
        PipelineTag::Imageto3D => "Image-to-3D"@,
        PipelineTag::ImageFeatureExtraction => "Image Feature Extraction"@,
        PipelineTag::VideoTexttoText => "Video-Text-to-Text"@,
        PipelineTag::KeypointDetection => "Keypoint Detection"@,
        PipelineTag::VisualDocumentRetrieval => "Visual Document Retrieval"@,
        PipelineTag::AnytoAny => "Any-to-Any"@,
        PipelineTag::Other => "Other"@,
    }
}

impl PipelineTag {
    /// The display label, read from the table above.
    pub fn to_string(&self) -> (r: String)
        ensures
            r@ == spec_pipeline_tag_label(*self),
    {
        match self {
            PipelineTag::TextClassification => String::from_str("Text Classification"),
            PipelineTag::TokenClassification => String::from_str("Token Classification"),
            PipelineTag::TableQuestionAnswering => String::from_str("Table Question Answering"),
            PipelineTag::QuestionAnswering => String::from_str("Question Answering"),
            PipelineTag::ZeroShotClassification => String::from_str("Zero-Shot Classification"),
            PipelineTag::Translation => String::from_str("Translation"),
            PipelineTag::Summarization => String::from_str("Summarization"),
            PipelineTag::FeatureExtraction => String::from_str("Feature Extraction"),
            PipelineTag::TextGeneration => String::from_str("Text Generation"),
            PipelineTag::Text2TextGeneration => String::from_str("Text2Text Generation"),
            PipelineTag::FillMask => String::from_str("Fill-Mask"),
            PipelineTag::SentenceSimilarity => String::from_str("Sentence Similarity"),
            PipelineTag::TexttoSpeech => String::from_str("Text-to-Speech"),
            PipelineTag::TexttoAudio => String::from_str("Text-to-Audio"),
            PipelineTag::AutomaticSpeechRecognition => String::from_str(
                "Automatic Speech Recognition",
            ),
            PipelineTag::AudiotoAudio => String::from_str("Audio-to-Audio"),
            PipelineTag::AudioClassification => String::from_str("Audio Classification"),
            PipelineTag::AudioTexttoText => String::from_str("Audio-Text-to-Text"),
            PipelineTag::VoiceActivityDetection => String::from_str("Voice Activity Detection"),
            PipelineTag::DepthEstimation => String::from_str("Depth Estimation"),
            PipelineTag::ImageClassification => String::from_str("Image Classification"),
            PipelineTag::ObjectDetection => String::from_str("Object Detection"),
            PipelineTag::ImageSegmentation => String::from_str("Image Segmentation"),
            PipelineTag::TexttoImage => String::from_str("Text-to-Image"),
            PipelineTag::ImagetoText => String::from_str("Image-to-Text"),
            PipelineTag::ImagetoImage => String::from_str("Image-to-Image"),
            PipelineTag::ImagetoVideo => String::from_str("Image-to-Video"),
            PipelineTag::UnconditionalImageGeneration => String::from_str(
                "Unconditional Image Generation",
            ),
            PipelineTag::VideoClassification => String::from_str("Video Classification"),
            PipelineTag::ReinforcementLearning => String::from_str("Reinforcement Learning"),
            PipelineTag::Robotics => String::from_str("Robotics"),
            PipelineTag::TabularClassification => String::from_str("Tabular Classification"),
            PipelineTag::TabularRegression => String::from_str("Tabular Regression"),
            PipelineTag::TabulartoText => String::from_str("Tabular to Text"),
            PipelineTag::TabletoText => String::from_str("Table to Text"),
            PipelineTag::MultipleChoice => String::from_str("Multiple Choice"),
            PipelineTag::TextRanking => String::from_str("Text Ranking"),
            PipelineTag::TextRetrieval => String::from_str("Text Retrieval"),
            PipelineTag::TimeSeriesForecasting => String::from_str("Time Series Forecasting"),
            PipelineTag::TexttoVideo => String::from_str("Text-to-Video"),
            PipelineTag::ImageTexttoText => String::from_str("Image-Text-to-Text"),
            PipelineTag::VisualQuestionAnswering => String::from_str("Visual Question Answering"),
            PipelineTag::DocumentQuestionAnswering => String::from_str(
                "Document Question Answering",
            ),
            PipelineTag::ZeroShotImageClassification => String::from_str(
                "Zero-Shot Image Classification",
            ),
            PipelineTag::GraphMachineLearning => String::from_str("Graph Machine Learning"),
            PipelineTag::MaskGeneration => String::from_str("Mask Generation"),
            PipelineTag::ZeroShotObjectDetection => String::from_str(
                "Zero-Shot Object Detection",
            ),
            PipelineTag::Textto3D => String::from_str("Text-to-3D"),
            PipelineTag::Imageto3D => String::from_str("Image-to-3D"),
            PipelineTag::ImageFeatureExtraction => String::from_str("Image Feature Extraction"),
            PipelineTag::VideoTexttoText => String::from_str("Video-Text-to-Text"),
            PipelineTag::KeypointDetection => String::from_str("Keypoint Detection"),
            PipelineTag::VisualDocumentRetrieval => String::from_str("Visual Document Retrieval"),
            PipelineTag::AnytoAny => String::from_str("Any-to-Any"),
            PipelineTag::Other => String::from_str("Other"),
        }
    }
}

/// Card metadata of a hub repository.
#[derive(Debug, Clone)]
pub struct CardData {
    pub license: Option<String>,
    pub tags: Option<Vec<String>>,
    pub task_categories: Option<Vec<String>>,
}

#[derive(Debug, Clone)]
pub struct ModelConfig {
    pub model_type: Option<String>,
}

/// Fields shared by models, datasets and spaces.
#[derive(Debug, Clone)]
pub struct BaseData {
    pub id: String,
    pub private: bool,
    pub tags: Vec<String>,
    pub likes: u32,
    pub author: String,
    pub last_modified: String,
    pub disabled: bool,
    pub card_data: CardData,
    pub created_at: String,
}

#[derive(Debug, Clone)]
pub struct Model {
    pub base: BaseData,
    pub pipeline_tag: Option<PipelineTag>,
    pub library_name: Option<String>,
    pub downloads: u32,
    pub model_id: String,
    pub config: Option<ModelConfig>,
}

/// Lifecycle state of a hosted space.
#[derive(Debug, Clone, Copy, PartialEq, Eq, Structural)]
pub enum SpaceRuntimeStage {
    NoAppFile,
    ConfigError,
    Building,
    BuildError,
    AppStarting,
    Running,
    RunningBuilding,
    RunningAppStarting,
    RuntimeError,
    Deleting,
    Stopped,
    Paused,
    Sleeping,
}

/// Hardware tier a space runs on.
#[derive(Debug, Clone, Copy, PartialEq, Eq, Structural)]
pub enum SpaceRuntimeHardware {
    CpuBasic,
    CpuUpgrade,
    CpuPerfomance,
    CpuXL,
    A100Large,
    ZeroA10G,
    A10GLarge,
    A10GLargeX2,
    A10GLargeX4,
    A10GSmall,
    H100,
    H100X8,
    T4Medium,
    T4Small,
    L4X1,
    L4X4,
    L40SX1,
    L40SX4,
    L40SX8,
}

/// Display label of each hardware tier; tiers without a badge label
/// render as the empty string.
pub open spec fn spec_hardware_label(h: SpaceRuntimeHardware) -> Seq<char> {
    match h {
        SpaceRuntimeHardware::CpuUpgrade => "CPU Upgrade"@,
        SpaceRuntimeHardware::CpuPerfomance => "CPU Performance"@,
        SpaceRuntimeHardware::A100Large => "A100 Large"@,
        SpaceRuntimeHardware::ZeroA10G => "Zero"@,
        SpaceRuntimeHardware::A10GLarge => "A10G"@,
        SpaceRuntimeHardware::A10GLargeX2 => "A10G"@,
        SpaceRuntimeHardware::A10GLargeX4 => "A10G"@,
        SpaceRuntimeHardware::A10GSmall => "A10G"@,
        SpaceRuntimeHardware::H100 => "H100"@,
        SpaceRuntimeHardware::H100X8 => "H100"@,
        SpaceRuntimeHardware::T4Medium => "T4"@,
        SpaceRuntimeHardware::T4Small => "T4"@,
        SpaceRuntimeHardware::L4X1 => "L4"@,
        SpaceRuntimeHardware::L4X4 => "L4"@,
        SpaceRuntimeHardware::L40SX1 => "L40S"@,
        SpaceRuntimeHardware::L40SX4 => "L40S"@,
        SpaceRuntimeHardware::L40SX8 => "L40S"@,
        _ => ""@,
    }
}

impl SpaceRuntimeHardware {
    /// The badge label of this hardware tier.
    pub fn to_string(&self) -> (r: String)
        ensures
            r@ == spec_hardware_label(*self),
    {
        match self {
            SpaceRuntimeHardware::CpuUpgrade => String::from_str("CPU Upgrade"),
            SpaceRuntimeHardware::CpuPerfomance => String::from_str("CPU Performance"),
            SpaceRuntimeHardware::A100Large => String::from_str("A100 Large"),
            SpaceRuntimeHardware::ZeroA10G => String::from_str("Zero"),
            SpaceRuntimeHardware::A10GLarge => String::from_str("A10G"),
            SpaceRuntimeHardware::A10GLargeX2 => String::from_str("A10G"),
            SpaceRuntimeHardware::A10GLargeX4 => String::from_str("A10G"),
            SpaceRuntimeHardware::A10GSmall => String::from_str("A10G"),
            SpaceRuntimeHardware::H100 => String::from_str("H100"),
            SpaceRuntimeHardware::H100X8 => String::from_str("H100"),
            SpaceRuntimeHardware::T4Medium => String::from_str("T4"),
            SpaceRuntimeHardware::T4Small => String::from_str("T4"),
            SpaceRuntimeHardware::L4X1 => String::from_str("L4"),
            SpaceRuntimeHardware::L4X4 => String::from_str("L4"),
            SpaceRuntimeHardware::L40SX1 => String::from_str("L40S"),
            SpaceRuntimeHardware::L40SX4 => String::from_str("L40S"),
            SpaceRuntimeHardware::L40SX8 => String::from_str("L40S"),
            _ => String::from_str(""),
        }
    }
}

#[derive(Debug, Clone)]
pub struct SpaceRuntimeHardwareData {
    pub current: SpaceRuntimeHardware,
}

#[derive(Debug, Clone)]
pub struct SpaceRuntime {
    pub stage: SpaceRuntimeStage,
    pub hardware: SpaceRuntimeHardwareData,
}

#[derive(Debug, Clone)]
pub struct Space {
    pub base: BaseData,
    pub subdomain: String,
    pub host: String,
    pub runtime: SpaceRuntime,
}

#[derive(Debug, Clone)]
pub struct Dataset {
    pub base: BaseData,
    pub downloads: u32,
}

/// The error payload shape of the hub's API.
#[derive(Debug, Clone)]
pub struct ErrorResponse {
    pub error: String,
}

/// A model query's decoded payload: error shape first, else success.
#[derive(Debug, Clone)]
pub enum ModelResponse {
    Failed(ErrorResponse),
    Valid(Model),
}

#[derive(Debug, Clone)]
pub enum DatasetResponse {
    Failed(ErrorResponse),
    Valid(Dataset),
}

#[derive(Debug, Clone)]
pub enum SpaceResponse {
    Failed(ErrorResponse),
    Valid(Space),
}

/// A successfully fetched hub repository of any kind.
#[derive(Debug, Clone)]
pub enum RepoData {
    Model(Model),
    Dataset(Dataset),
    Space(Space),
}

/// The shared base fields of a hub repository.
pub open spec fn spec_repo_base(r: RepoData) -> BaseData {
    match r {
        RepoData::Model(m) => m.base,
        RepoData::Dataset(d) => d.base,
        RepoData::Space(s) => s.base,
    }
}

impl RepoData {
    /// The repository's full identifier ("owner/name").
    pub fn get_id(&self) -> (r: String)
        ensures
            r@ == spec_repo_base(*self).id@,
    {
        match self {
            RepoData::Model(model) => model.base.id.clone(),
            RepoData::Dataset(dataset) => dataset.base.id.clone(),
            RepoData::Space(space) => space.base.id.clone(),
        }
    }

    /// The like count, compactly formatted.
    pub fn get_likes(&self) -> (r: String)
        ensures
            r@ == spec_fmt_num(spec_repo_base(*self).likes as int),
    {
        let likes: u32 = match self {
            RepoData::Model(model) => model.base.likes,
            RepoData::Dataset(dataset) => dataset.base.likes,
            RepoData::Space(space) => space.base.likes,
        };
        fmt_num(likes as i64)
    }

    /// The license tag from the card metadata, if any.
    pub fn get_license(&self) -> (r: Option<String>)
        ensures
            r matches Some(l) ==> spec_repo_base(*self).card_data.license matches Some(x) && l@
                == x@,
            r is None <==> spec_repo_base(*self).card_data.license is None,
    {
        match self {
            RepoData::Model(model) => model.base.card_data.license.clone(),
            RepoData::Dataset(dataset) => dataset.base.card_data.license.clone(),
            RepoData::Space(space) => space.base.card_data.license.clone(),
        }
    }

    /// The download count, compactly formatted; spaces have none.
    pub fn get_downloads_count(&self) -> (r: Option<String>)
        ensures
            match *self {
                RepoData::Model(m) => r matches Some(s) && s@ == spec_fmt_num(m.downloads as int),
                RepoData::Dataset(d) => r matches Some(s) && s@ == spec_fmt_num(
                    d.downloads as int,
                ),
                RepoData::Space(_) => r is None,
            },
    {
        match self {
            RepoData::Model(model) => Some(fmt_num(model.downloads as i64)),
            RepoData::Dataset(dataset) => Some(fmt_num(dataset.downloads as i64)),
            RepoData::Space(_) => None,
        }
    }

    /// The repository's raw tag list.
    pub fn get_repo_tags(&self) -> (r: Vec<String>)
        ensures
            r@.len() == spec_repo_base(*self).tags@.len(),
            forall|i: int|
                0 <= i < r@.len() ==> r@[i]@ == spec_repo_base(*self).tags@[i]@,
    {
        match self {
            RepoData::Model(model) => model.base.tags.clone(),
            RepoData::Dataset(dataset) => dataset.base.tags.clone(),
            RepoData::Space(space) => space.base.tags.clone(),
        }
    }
}

/// A hub answer for any repository kind.
#[derive(Debug, Clone)]
pub enum RepoResponse {
    Model(ModelResponse),
    Dataset(DatasetResponse),
    Space(SpaceResponse),
}

} // verus!
