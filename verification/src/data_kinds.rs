//! The registry of resource kinds: the mapping from a 32-bit type code to
//! a short mnemonic and a human-readable name.  A code that matches no
//! known kind maps to the `Unimplemented` catch-all; that is a valid
//! outcome, not an error, and such an entry keeps its raw bytes.

use vstd::prelude::*;

verus! {

/// Every resource kind the registry knows, plus the `Unimplemented`
/// catch-all for codes that match none of them.
#[derive(Debug, Clone, Copy, PartialEq, Eq, Structural, Hash, PartialOrd, Ord)]
pub enum DbpfId {
    UiData,
    WallGraph,
    TrackSettings,
    LotDescription,
    BinaryIndex,
    PoolSurface,
    TextureResource,
    AudioFile,
    SceneNode,
    ThreeDArray,
    TextureOverlayXML,
    Popups,
    SimScores,
    BehaviorConstant,
    BehaviorFunction,
    BitmapImage,
    CatalogString,
    ImageLink,
    CatalogDescription,
    Drawgroup,
    FaceProperties,
    FamilyInformation,
    FamilyData,
    Function,
    AudioReference,
    GlobalData,
    HouseDescriptor,
    TexturedMaterial,
    WorldDatabase,
    LotTexture,
    SkinToneXml,
    CinematicScene,
    NeighborhoodMemory,
    NameReference,
    NameMap,
    ObjectData,
    ObjectFunction,
    ObjectMetadata,
    ImageColorPalette,
    SimPersonalInformation,
    StackScript,
    PackageToolkit,
    SimInformation,
    ObjectSlot,
    Sprites,
    TextLists,
    TTAT,
    BehaviorFunctionLabels,
    BehaviorConstantLabels,
    BehaviorFlowchartTree,
    PieMenuFunctions,
    PieMenuSettings,
    MaterialObject,
    UnknownObject,
    EnvironmentCubeLighting,
    TwoDArray,
    LotDefinition,
    Object,
    Hitlist,
    GeometricNode,
    Lightmap,
    WallLayer,
    Unknown1,
    JpegImage,
    FamilyTies,
    PredictiveMaps,
    SoundEffects,
    Unknown2,
    SimDescription,
    FencePostLayer,
    Roof,
    LotTerrainGeometry,
    NeighborhoodTerrain,
    LinearFogLighting,
    DrawStateLighting,
    GeometricDataContainer,
    ThreeDReference,
    IdNumber,
    WeatherInfo,
    TssgSystem,
    Light,
    StringMap,
    VertexLayer,
    Unknown3,
    SimRelations,
    Unknown4,
    FacialStructure,
    MaxisMaterialShader,
    SimWantsAndFears,
    ContentRegistry,
    CreationResource,
    Directory,
    EffectsResourceTree,
    PropertySet,
    VersionInformation,
    NeighborhoodView,
    LargeImage,
    SingularLotObject,
    Animation,
    Shape,
    Unimplemented,
}


impl Default for DbpfId {
    /// The catch-all kind.
    fn default() -> (r: DbpfId)
        ensures
            r == DbpfId::Unimplemented,
    {
        DbpfId::Unimplemented
    }
}

impl DbpfId {
    /// The 32-bit type code of this kind.
    pub open spec fn spec_id(self) -> u32 {
        match self {

            DbpfId::UiData => 0x0,
            DbpfId::WallGraph => 0x0A28_4D0B,
            DbpfId::TrackSettings => 0x0B9E_B87E,
            DbpfId::LotDescription => 0x0BF9_99E7,
            DbpfId::BinaryIndex => 0x0C56_0F39,
            DbpfId::PoolSurface => 0x0C90_0FDB,
            DbpfId::TextureResource => 0x1C4A_276C,
            DbpfId::AudioFile => 0x2026_960B,
            DbpfId::SceneNode => 0x2523_2B11,
            DbpfId::ThreeDArray => 0x2A51_171B,
            DbpfId::TextureOverlayXML => 0x2C1F_D8A1,
            DbpfId::Popups => 0x2C31_0F46,
            DbpfId::SimScores => 0x3053_CF74,
            DbpfId::BehaviorConstant => 0x4243_4F4E,
            DbpfId::BehaviorFunction => 0x4248_4156,
            DbpfId::BitmapImage => 0x424D_505F,
            DbpfId::CatalogString => 0x4341_5453,
            DbpfId::ImageLink => 0x4349_4745,
            DbpfId::CatalogDescription => 0x4354_5353,
            DbpfId::Drawgroup => 0x4447_5250,
            DbpfId::FaceProperties => 0x4641_4345,
            DbpfId::FamilyInformation => 0x4641_4D49,
            DbpfId::FamilyData => 0x4641_4D68,
            DbpfId::Function => 0x4643_4E53,
            DbpfId::AudioReference => 0x4657_4156,
            DbpfId::GlobalData => 0x474C_4F42,
            DbpfId::HouseDescriptor => 0x484F_5553,
            DbpfId::TexturedMaterial => 0x4959_6978,
            DbpfId::WorldDatabase => 0x49FF_7D76,
            DbpfId::LotTexture => 0x4B58_975B,
            DbpfId::SkinToneXml => 0x4C15_8081,
            DbpfId::CinematicScene => 0x4D51_F042,
            DbpfId::NeighborhoodMemory => 0x4E47_4248,
            DbpfId::NameReference => 0x4E52_4546,
            DbpfId::NameMap => 0x4E6D_6150,
            DbpfId::ObjectData => 0x4F42_4A44,
            DbpfId::ObjectFunction => 0x4F42_4A66,
            DbpfId::ObjectMetadata => 0x4F62_6A4D,
            DbpfId::ImageColorPalette => 0x5041_4C54,
            DbpfId::SimPersonalInformation => 0x5045_5253,
            DbpfId::StackScript => 0x504F_5349,
            DbpfId::PackageToolkit => 0x5054_4250,
            DbpfId::SimInformation => 0x5349_4D49,
            DbpfId::ObjectSlot => 0x534C_4F54,
            DbpfId::Sprites => 0x5350_5232,
            DbpfId::TextLists => 0x5354_5223,
            DbpfId::TTAT => 0x5441_5454,
            DbpfId::BehaviorFunctionLabels => 0x5450_5250,
            DbpfId::BehaviorConstantLabels => 0x5452_434E,
            DbpfId::BehaviorFlowchartTree => 0x5452_4545,
            DbpfId::PieMenuFunctions => 0x5454_4142,
            DbpfId::PieMenuSettings => 0x5454_4173,
            DbpfId::MaterialObject => 0x584D_544F,
            DbpfId::UnknownObject => 0x584F_424A,
            DbpfId::EnvironmentCubeLighting => 0x6A97_042F,
            DbpfId::TwoDArray => 0x6B94_3B43,
            DbpfId::LotDefinition => 0x6C58_9723,
            DbpfId::Object => 0x6F62_6A74,
            DbpfId::Hitlist => 0x7B1A_CFCD,
            DbpfId::GeometricNode => 0x7BA3_838C,
            DbpfId::Lightmap => 0x856D_DBAC,
            DbpfId::WallLayer => 0x8A84_D7B0,
            DbpfId::Unknown1 => 0x8B0C_79D6,
            DbpfId::JpegImage => 0x8C3C_E95A,
            DbpfId::FamilyTies => 0x8C87_0743,
            DbpfId::PredictiveMaps => 0x8CC0_A14B,
            DbpfId::SoundEffects => 0x8DB5_E4C2,
            DbpfId::Unknown2 => 0x9D79_6DB4,
            DbpfId::SimDescription => 0xAACE_2EFB,
            DbpfId::FencePostLayer => 0xAB4B_A572,
            DbpfId::Roof => 0xAB94_06AA,
            DbpfId::LotTerrainGeometry => 0xABCB_5DA4,
            DbpfId::NeighborhoodTerrain => 0xABD0_DC63,
            DbpfId::LinearFogLighting => 0xAC06_A66F,
            DbpfId::DrawStateLighting => 0xAC06_A676,
            DbpfId::GeometricDataContainer => 0xAC4F_8687,
            DbpfId::ThreeDReference => 0xAC50_6764,
            DbpfId::IdNumber => 0xAC8A_7A2E,
            DbpfId::WeatherInfo => 0xB21B_E28B,
            DbpfId::TssgSystem => 0xBA35_3CE1,
            DbpfId::Light => 0xC9C8_1B9B,
            DbpfId::StringMap => 0xCAC4_FC40,
            DbpfId::VertexLayer => 0xCB43_87A1,
            DbpfId::Unknown3 => 0xCC2A_6A34,
            DbpfId::SimRelations => 0xCC36_4C2A,
            DbpfId::Unknown4 => 0xCC8A_6A69,
            DbpfId::FacialStructure => 0xCCCE_F852,
            DbpfId::MaxisMaterialShader => 0xCD7F_E87A,
            DbpfId::SimWantsAndFears => 0xCD95_548E,
            DbpfId::ContentRegistry => 0xCDB4_67B8,
            DbpfId::CreationResource => 0xE519_C933,
            DbpfId::Directory => 0xE86B_1EEF,
            DbpfId::EffectsResourceTree => 0xEA51_18B0,
            DbpfId::PropertySet => 0xEBCF_3E27,
            DbpfId::VersionInformation => 0xEBFE_E342,
            DbpfId::NeighborhoodView => 0xEC44_BDDC,
            DbpfId::LargeImage => 0xED53_4136,
            DbpfId::SingularLotObject => 0xFA1C_39F7,
            DbpfId::Animation => 0xFB00_791E,
            DbpfId::Shape => 0xFC6E_B1F7,
            DbpfId::Unimplemented => 0xFFFF_FFFF,
        }
    }

    /// The 32-bit type code of this kind.
    pub fn id(&self) -> (r: u32)
        ensures
            r == self.spec_id(),
    {
        match self {

            DbpfId::UiData => 0x0,
            DbpfId::WallGraph => 0x0A28_4D0B,
            DbpfId::TrackSettings => 0x0B9E_B87E,
            DbpfId::LotDescription => 0x0BF9_99E7,
            DbpfId::BinaryIndex => 0x0C56_0F39,
            DbpfId::PoolSurface => 0x0C90_0FDB,
            DbpfId::TextureResource => 0x1C4A_276C,
            DbpfId::AudioFile => 0x2026_960B,
            DbpfId::SceneNode => 0x2523_2B11,
            DbpfId::ThreeDArray => 0x2A51_171B,
            DbpfId::TextureOverlayXML => 0x2C1F_D8A1,
            DbpfId::Popups => 0x2C31_0F46,
            DbpfId::SimScores => 0x3053_CF74,
            DbpfId::BehaviorConstant => 0x4243_4F4E,
            DbpfId::BehaviorFunction => 0x4248_4156,
            DbpfId::BitmapImage => 0x424D_505F,
            DbpfId::CatalogString => 0x4341_5453,
            DbpfId::ImageLink => 0x4349_4745,
            DbpfId::CatalogDescription => 0x4354_5353,
            DbpfId::Drawgroup => 0x4447_5250,
            DbpfId::FaceProperties => 0x4641_4345,
            DbpfId::FamilyInformation => 0x4641_4D49,
            DbpfId::FamilyData => 0x4641_4D68,
            DbpfId::Function => 0x4643_4E53,
            DbpfId::AudioReference => 0x4657_4156,
            DbpfId::GlobalData => 0x474C_4F42,
            DbpfId::HouseDescriptor => 0x484F_5553,
            DbpfId::TexturedMaterial => 0x4959_6978,
            DbpfId::WorldDatabase => 0x49FF_7D76,
            DbpfId::LotTexture => 0x4B58_975B,
            DbpfId::SkinToneXml => 0x4C15_8081,
            DbpfId::CinematicScene => 0x4D51_F042,
            DbpfId::NeighborhoodMemory => 0x4E47_4248,
            DbpfId::NameReference => 0x4E52_4546,
            DbpfId::NameMap => 0x4E6D_6150,
            DbpfId::ObjectData => 0x4F42_4A44,
            DbpfId::ObjectFunction => 0x4F42_4A66,
            DbpfId::ObjectMetadata => 0x4F62_6A4D,
            DbpfId::ImageColorPalette => 0x5041_4C54,
            DbpfId::SimPersonalInformation => 0x5045_5253,
            DbpfId::StackScript => 0x504F_5349,
            DbpfId::PackageToolkit => 0x5054_4250,
            DbpfId::SimInformation => 0x5349_4D49,
            DbpfId::ObjectSlot => 0x534C_4F54,
            DbpfId::Sprites => 0x5350_5232,
            DbpfId::TextLists => 0x5354_5223,
            DbpfId::TTAT => 0x5441_5454,
            DbpfId::BehaviorFunctionLabels => 0x5450_5250,
            DbpfId::BehaviorConstantLabels => 0x5452_434E,
            DbpfId::BehaviorFlowchartTree => 0x5452_4545,
            DbpfId::PieMenuFunctions => 0x5454_4142,
            DbpfId::PieMenuSettings => 0x5454_4173,
            DbpfId::MaterialObject => 0x584D_544F,
            DbpfId::UnknownObject => 0x584F_424A,
            DbpfId::EnvironmentCubeLighting => 0x6A97_042F,
            DbpfId::TwoDArray => 0x6B94_3B43,
            DbpfId::LotDefinition => 0x6C58_9723,
            DbpfId::Object => 0x6F62_6A74,
            DbpfId::Hitlist => 0x7B1A_CFCD,
            DbpfId::GeometricNode => 0x7BA3_838C,
            DbpfId::Lightmap => 0x856D_DBAC,
            DbpfId::WallLayer => 0x8A84_D7B0,
            DbpfId::Unknown1 => 0x8B0C_79D6,
            DbpfId::JpegImage => 0x8C3C_E95A,
            DbpfId::FamilyTies => 0x8C87_0743,
            DbpfId::PredictiveMaps => 0x8CC0_A14B,
            DbpfId::SoundEffects => 0x8DB5_E4C2,
            DbpfId::Unknown2 => 0x9D79_6DB4,
            DbpfId::SimDescription => 0xAACE_2EFB,
            DbpfId::FencePostLayer => 0xAB4B_A572,
            DbpfId::Roof => 0xAB94_06AA,
            DbpfId::LotTerrainGeometry => 0xABCB_5DA4,
            DbpfId::NeighborhoodTerrain => 0xABD0_DC63,
            DbpfId::LinearFogLighting => 0xAC06_A66F,
            DbpfId::DrawStateLighting => 0xAC06_A676,
            DbpfId::GeometricDataContainer => 0xAC4F_8687,
            DbpfId::ThreeDReference => 0xAC50_6764,
            DbpfId::IdNumber => 0xAC8A_7A2E,
            DbpfId::WeatherInfo => 0xB21B_E28B,
            DbpfId::TssgSystem => 0xBA35_3CE1,
            DbpfId::Light => 0xC9C8_1B9B,
            DbpfId::StringMap => 0xCAC4_FC40,
            DbpfId::VertexLayer => 0xCB43_87A1,
            DbpfId::Unknown3 => 0xCC2A_6A34,
            DbpfId::SimRelations => 0xCC36_4C2A,
            DbpfId::Unknown4 => 0xCC8A_6A69,
            DbpfId::FacialStructure => 0xCCCE_F852,
            DbpfId::MaxisMaterialShader => 0xCD7F_E87A,
            DbpfId::SimWantsAndFears => 0xCD95_548E,
            DbpfId::ContentRegistry => 0xCDB4_67B8,
            DbpfId::CreationResource => 0xE519_C933,
            DbpfId::Directory => 0xE86B_1EEF,
            DbpfId::EffectsResourceTree => 0xEA51_18B0,
            DbpfId::PropertySet => 0xEBCF_3E27,
            DbpfId::VersionInformation => 0xEBFE_E342,
            DbpfId::NeighborhoodView => 0xEC44_BDDC,
            DbpfId::LargeImage => 0xED53_4136,
            DbpfId::SingularLotObject => 0xFA1C_39F7,
            DbpfId::Animation => 0xFB00_791E,
            DbpfId::Shape => 0xFC6E_B1F7,
            DbpfId::Unimplemented => 0xFFFF_FFFF,
        }
    }

    /// The kind a 32-bit type code names; a code that matches none of the
    /// known kinds is the `Unimplemented` catch-all.
    pub open spec fn spec_from_id(code: u32) -> DbpfId {
        match code {

            0x0 => DbpfId::UiData,
            0x0A28_4D0B => DbpfId::WallGraph,
            0x0B9E_B87E => DbpfId::TrackSettings,
            0x0BF9_99E7 => DbpfId::LotDescription,
            0x0C56_0F39 => DbpfId::BinaryIndex,
            0x0C90_0FDB => DbpfId::PoolSurface,
            0x1C4A_276C => DbpfId::TextureResource,
            0x2026_960B => DbpfId::AudioFile,
            0x2523_2B11 => DbpfId::SceneNode,
            0x2A51_171B => DbpfId::ThreeDArray,
            0x2C1F_D8A1 => DbpfId::TextureOverlayXML,
            0x2C31_0F46 => DbpfId::Popups,
            0x3053_CF74 => DbpfId::SimScores,
            0x4243_4F4E => DbpfId::BehaviorConstant,
            0x4248_4156 => DbpfId::BehaviorFunction,
            0x424D_505F => DbpfId::BitmapImage,
            0x4341_5453 => DbpfId::CatalogString,
            0x4349_4745 => DbpfId::ImageLink,
            0x4354_5353 => DbpfId::CatalogDescription,
            0x4447_5250 => DbpfId::Drawgroup,
            0x4641_4345 => DbpfId::FaceProperties,
            0x4641_4D49 => DbpfId::FamilyInformation,
            0x4641_4D68 => DbpfId::FamilyData,
            0x4643_4E53 => DbpfId::Function,
            0x4657_4156 => DbpfId::AudioReference,
            0x474C_4F42 => DbpfId::GlobalData,
            0x484F_5553 => DbpfId::HouseDescriptor,
            0x4959_6978 => DbpfId::TexturedMaterial,
            0x49FF_7D76 => DbpfId::WorldDatabase,
            0x4B58_975B => DbpfId::LotTexture,
            0x4C15_8081 => DbpfId::SkinToneXml,
            0x4D51_F042 => DbpfId::CinematicScene,
            0x4E47_4248 => DbpfId::NeighborhoodMemory,
            0x4E52_4546 => DbpfId::NameReference,
            0x4E6D_6150 => DbpfId::NameMap,
            0x4F42_4A44 => DbpfId::ObjectData,
            0x4F42_4A66 => DbpfId::ObjectFunction,
            0x4F62_6A4D => DbpfId::ObjectMetadata,
            0x5041_4C54 => DbpfId::ImageColorPalette,
            0x5045_5253 => DbpfId::SimPersonalInformation,
            0x504F_5349 => DbpfId::StackScript,
            0x5054_4250 => DbpfId::PackageToolkit,
            0x5349_4D49 => DbpfId::SimInformation,
            0x534C_4F54 => DbpfId::ObjectSlot,
            0x5350_5232 => DbpfId::Sprites,
            0x5354_5223 => DbpfId::TextLists,
            0x5441_5454 => DbpfId::TTAT,
            0x5450_5250 => DbpfId::BehaviorFunctionLabels,
            0x5452_434E => DbpfId::BehaviorConstantLabels,
            0x5452_4545 => DbpfId::BehaviorFlowchartTree,
            0x5454_4142 => DbpfId::PieMenuFunctions,
            0x5454_4173 => DbpfId::PieMenuSettings,
            0x584D_544F => DbpfId::MaterialObject,
            0x584F_424A => DbpfId::UnknownObject,
            0x6A97_042F => DbpfId::EnvironmentCubeLighting,
            0x6B94_3B43 => DbpfId::TwoDArray,
            0x6C58_9723 => DbpfId::LotDefinition,
            0x6F62_6A74 => DbpfId::Object,
            0x7B1A_CFCD => DbpfId::Hitlist,
            0x7BA3_838C => DbpfId::GeometricNode,
            0x856D_DBAC => DbpfId::Lightmap,
            0x8A84_D7B0 => DbpfId::WallLayer,
            0x8B0C_79D6 => DbpfId::Unknown1,
            0x8C3C_E95A => DbpfId::JpegImage,
            0x8C87_0743 => DbpfId::FamilyTies,
            0x8CC0_A14B => DbpfId::PredictiveMaps,
            0x8DB5_E4C2 => DbpfId::SoundEffects,
            0x9D79_6DB4 => DbpfId::Unknown2,
            0xAACE_2EFB => DbpfId::SimDescription,
            0xAB4B_A572 => DbpfId::FencePostLayer,
            0xAB94_06AA => DbpfId::Roof,
            0xABCB_5DA4 => DbpfId::LotTerrainGeometry,
            0xABD0_DC63 => DbpfId::NeighborhoodTerrain,
            0xAC06_A66F => DbpfId::LinearFogLighting,
            0xAC06_A676 => DbpfId::DrawStateLighting,
            0xAC4F_8687 => DbpfId::GeometricDataContainer,
            0xAC50_6764 => DbpfId::ThreeDReference,
            0xAC8A_7A2E => DbpfId::IdNumber,
            0xB21B_E28B => DbpfId::WeatherInfo,
            0xBA35_3CE1 => DbpfId::TssgSystem,
            0xC9C8_1B9B => DbpfId::Light,
            0xCAC4_FC40 => DbpfId::StringMap,
            0xCB43_87A1 => DbpfId::VertexLayer,
            0xCC2A_6A34 => DbpfId::Unknown3,
            0xCC36_4C2A => DbpfId::SimRelations,
            0xCC8A_6A69 => DbpfId::Unknown4,
            0xCCCE_F852 => DbpfId::FacialStructure,
            0xCD7F_E87A => DbpfId::MaxisMaterialShader,
            0xCD95_548E => DbpfId::SimWantsAndFears,
            0xCDB4_67B8 => DbpfId::ContentRegistry,
            0xE519_C933 => DbpfId::CreationResource,
            0xE86B_1EEF => DbpfId::Directory,
            0xEA51_18B0 => DbpfId::EffectsResourceTree,
            0xEBCF_3E27 => DbpfId::PropertySet,
            0xEBFE_E342 => DbpfId::VersionInformation,
            0xEC44_BDDC => DbpfId::NeighborhoodView,
            0xED53_4136 => DbpfId::LargeImage,
            0xFA1C_39F7 => DbpfId::SingularLotObject,
            0xFB00_791E => DbpfId::Animation,
            0xFC6E_B1F7 => DbpfId::Shape,
            _ => DbpfId::Unimplemented,
        }
    }

    /// The kind a 32-bit type code names; a code that matches none of the
    /// known kinds is the `Unimplemented` catch-all.
    pub fn from_id(code: u32) -> (r: DbpfId)
        ensures
            r == DbpfId::spec_from_id(code),
    {
        match code {

            0x0 => DbpfId::UiData,
            0x0A28_4D0B => DbpfId::WallGraph,
            0x0B9E_B87E => DbpfId::TrackSettings,
            0x0BF9_99E7 => DbpfId::LotDescription,
            0x0C56_0F39 => DbpfId::BinaryIndex,
            0x0C90_0FDB => DbpfId::PoolSurface,
            0x1C4A_276C => DbpfId::TextureResource,
            0x2026_960B => DbpfId::AudioFile,
            0x2523_2B11 => DbpfId::SceneNode,
            0x2A51_171B => DbpfId::ThreeDArray,
            0x2C1F_D8A1 => DbpfId::TextureOverlayXML,
            0x2C31_0F46 => DbpfId::Popups,
            0x3053_CF74 => DbpfId::SimScores,
            0x4243_4F4E => DbpfId::BehaviorConstant,
            0x4248_4156 => DbpfId::BehaviorFunction,
            0x424D_505F => DbpfId::BitmapImage,
            0x4341_5453 => DbpfId::CatalogString,
            0x4349_4745 => DbpfId::ImageLink,
            0x4354_5353 => DbpfId::CatalogDescription,
            0x4447_5250 => DbpfId::Drawgroup,
            0x4641_4345 => DbpfId::FaceProperties,
            0x4641_4D49 => DbpfId::FamilyInformation,
            0x4641_4D68 => DbpfId::FamilyData,
            0x4643_4E53 => DbpfId::Function,
            0x4657_4156 => DbpfId::AudioReference,
            0x474C_4F42 => DbpfId::GlobalData,
            0x484F_5553 => DbpfId::HouseDescriptor,
            0x4959_6978 => DbpfId::TexturedMaterial,
            0x49FF_7D76 => DbpfId::WorldDatabase,
            0x4B58_975B => DbpfId::LotTexture,
            0x4C15_8081 => DbpfId::SkinToneXml,
            0x4D51_F042 => DbpfId::CinematicScene,
            0x4E47_4248 => DbpfId::NeighborhoodMemory,
            0x4E52_4546 => DbpfId::NameReference,
            0x4E6D_6150 => DbpfId::NameMap,
            0x4F42_4A44 => DbpfId::ObjectData,
            0x4F42_4A66 => DbpfId::ObjectFunction,
            0x4F62_6A4D => DbpfId::ObjectMetadata,
            0x5041_4C54 => DbpfId::ImageColorPalette,
            0x5045_5253 => DbpfId::SimPersonalInformation,
            0x504F_5349 => DbpfId::StackScript,
            0x5054_4250 => DbpfId::PackageToolkit,
            0x5349_4D49 => DbpfId::SimInformation,
            0x534C_4F54 => DbpfId::ObjectSlot,
            0x5350_5232 => DbpfId::Sprites,
            0x5354_5223 => DbpfId::TextLists,
            0x5441_5454 => DbpfId::TTAT,
            0x5450_5250 => DbpfId::BehaviorFunctionLabels,
            0x5452_434E => DbpfId::BehaviorConstantLabels,
            0x5452_4545 => DbpfId::BehaviorFlowchartTree,
            0x5454_4142 => DbpfId::PieMenuFunctions,
            0x5454_4173 => DbpfId::PieMenuSettings,
            0x584D_544F => DbpfId::MaterialObject,
            0x584F_424A => DbpfId::UnknownObject,
            0x6A97_042F => DbpfId::EnvironmentCubeLighting,
            0x6B94_3B43 => DbpfId::TwoDArray,
            0x6C58_9723 => DbpfId::LotDefinition,
            0x6F62_6A74 => DbpfId::Object,
            0x7B1A_CFCD => DbpfId::Hitlist,
            0x7BA3_838C => DbpfId::GeometricNode,
            0x856D_DBAC => DbpfId::Lightmap,
            0x8A84_D7B0 => DbpfId::WallLayer,
            0x8B0C_79D6 => DbpfId::Unknown1,
            0x8C3C_E95A => DbpfId::JpegImage,
            0x8C87_0743 => DbpfId::FamilyTies,
            0x8CC0_A14B => DbpfId::PredictiveMaps,
            0x8DB5_E4C2 => DbpfId::SoundEffects,
            0x9D79_6DB4 => DbpfId::Unknown2,
            0xAACE_2EFB => DbpfId::SimDescription,
            0xAB4B_A572 => DbpfId::FencePostLayer,
            0xAB94_06AA => DbpfId::Roof,
            0xABCB_5DA4 => DbpfId::LotTerrainGeometry,
            0xABD0_DC63 => DbpfId::NeighborhoodTerrain,
            0xAC06_A66F => DbpfId::LinearFogLighting,
            0xAC06_A676 => DbpfId::DrawStateLighting,
            0xAC4F_8687 => DbpfId::GeometricDataContainer,
            0xAC50_6764 => DbpfId::ThreeDReference,
            0xAC8A_7A2E => DbpfId::IdNumber,
            0xB21B_E28B => DbpfId::WeatherInfo,
            0xBA35_3CE1 => DbpfId::TssgSystem,
            0xC9C8_1B9B => DbpfId::Light,
            0xCAC4_FC40 => DbpfId::StringMap,
            0xCB43_87A1 => DbpfId::VertexLayer,
            0xCC2A_6A34 => DbpfId::Unknown3,
            0xCC36_4C2A => DbpfId::SimRelations,
            0xCC8A_6A69 => DbpfId::Unknown4,
            0xCCCE_F852 => DbpfId::FacialStructure,
            0xCD7F_E87A => DbpfId::MaxisMaterialShader,
            0xCD95_548E => DbpfId::SimWantsAndFears,
            0xCDB4_67B8 => DbpfId::ContentRegistry,
            0xE519_C933 => DbpfId::CreationResource,
            0xE86B_1EEF => DbpfId::Directory,
            0xEA51_18B0 => DbpfId::EffectsResourceTree,
            0xEBCF_3E27 => DbpfId::PropertySet,
            0xEBFE_E342 => DbpfId::VersionInformation,
            0xEC44_BDDC => DbpfId::NeighborhoodView,
            0xED53_4136 => DbpfId::LargeImage,
            0xFA1C_39F7 => DbpfId::SingularLotObject,
            0xFB00_791E => DbpfId::Animation,
            0xFC6E_B1F7 => DbpfId::Shape,
            _ => DbpfId::Unimplemented,
        }
    }

    /// The kind's short mnemonic.
    pub open spec fn spec_short_name(self) -> Seq<char> {
        match self {

            DbpfId::UiData => "UI"@,
            DbpfId::WallGraph => "WGRA"@,
            DbpfId::TrackSettings => "TRKS"@,
            DbpfId::LotDescription => "DESC"@,
            DbpfId::BinaryIndex => "BINX"@,
            DbpfId::PoolSurface => "POOL"@,
            DbpfId::TextureResource => "TXTR"@,
            DbpfId::AudioFile => "XA"@,
            DbpfId::SceneNode => "5SC"@,
            DbpfId::ThreeDArray => "3ARY"@,
            DbpfId::TextureOverlayXML => "XTOL"@,
            DbpfId::Popups => "POPS"@,
            DbpfId::SimScores => "SCOR"@,
            DbpfId::BehaviorConstant => "BCON"@,
            DbpfId::BehaviorFunction => "BHAV"@,
            DbpfId::BitmapImage => "BMP"@,
            DbpfId::CatalogString => "CATS"@,
            DbpfId::ImageLink => "CIGE"@,
            DbpfId::CatalogDescription => "CTSS"@,
            DbpfId::Drawgroup => "DGRP"@,
            DbpfId::FaceProperties => "FACE"@,
            DbpfId::FamilyInformation => "FAMI"@,
            DbpfId::FamilyData => "FAMh"@,
            DbpfId::Function => "FCNS"@,
            DbpfId::AudioReference => "FWAV"@,
            DbpfId::GlobalData => "GLOB"@,
            DbpfId::HouseDescriptor => "HOUS"@,
            DbpfId::TexturedMaterial => "TXMT"@,
            DbpfId::WorldDatabase => "WRLD"@,
            DbpfId::LotTexture => "LTTX"@,
            DbpfId::SkinToneXml => "XSTN"@,
            DbpfId::CinematicScene => "CINE"@,
            DbpfId::NeighborhoodMemory => "NGBH"@,
            DbpfId::NameReference => "NREF"@,
            DbpfId::NameMap => "NMAP"@,
            DbpfId::ObjectData => "OBJD"@,
            DbpfId::ObjectFunction => "OBJF"@,
            DbpfId::ObjectMetadata => "OBJM"@,
            DbpfId::ImageColorPalette => "PALT"@,
            DbpfId::SimPersonalInformation => "PERS"@,
            DbpfId::StackScript => "POSI"@,
            DbpfId::PackageToolkit => "PTBP"@,
            DbpfId::SimInformation => "SIMI"@,
            DbpfId::ObjectSlot => "SLOT"@,
            DbpfId::Sprites => "SPR2"@,
            DbpfId::TextLists => "STR#"@,
            DbpfId::TTAT => "TTAT"@,
            DbpfId::BehaviorFunctionLabels => "TPRP"@,
            DbpfId::BehaviorConstantLabels => "TRCN"@,
            DbpfId::BehaviorFlowchartTree => "TREE"@,
            DbpfId::PieMenuFunctions => "TTAB"@,
            DbpfId::PieMenuSettings => "TTAs"@,
            DbpfId::MaterialObject => "XMTO"@,
            DbpfId::UnknownObject => "XOBJ"@,
            DbpfId::EnvironmentCubeLighting => "5EL"@,
            DbpfId::TwoDArray => "2ARY"@,
            DbpfId::LotDefinition => "LOT"@,
            DbpfId::Object => "MOBJT"@,
            DbpfId::Hitlist => "HLS"@,
            DbpfId::GeometricNode => "GMND"@,
            DbpfId::Lightmap => "LTMP"@,
            DbpfId::WallLayer => "WLL"@,
            DbpfId::Unknown1 => "UNK1"@,
            DbpfId::JpegImage => "JPG"@,
            DbpfId::FamilyTies => "FAMt"@,
            DbpfId::PredictiveMaps => "PMAP"@,
            DbpfId::SoundEffects => "SFX"@,
            DbpfId::Unknown2 => "UNK2"@,
            DbpfId::SimDescription => "PDAT"@,
            DbpfId::FencePostLayer => "FPL"@,
            DbpfId::Roof => "ROOF"@,
            DbpfId::LotTerrainGeometry => "LOTG"@,
            DbpfId::NeighborhoodTerrain => "NHTR"@,
            DbpfId::LinearFogLighting => "5LF"@,
            DbpfId::DrawStateLighting => "5DS"@,
            DbpfId::GeometricDataContainer => "GMDC"@,
            DbpfId::ThreeDReference => "3IDR"@,
            DbpfId::IdNumber => "NID"@,
            DbpfId::WeatherInfo => "WTHR"@,
            DbpfId::TssgSystem => "TSSG"@,
            DbpfId::Light => "LGHT"@,
            DbpfId::StringMap => "SMAP"@,
            DbpfId::VertexLayer => "VERT"@,
            DbpfId::Unknown3 => "UNK3"@,
            DbpfId::SimRelations => "SREL"@,
            DbpfId::Unknown4 => "UNK4"@,
            DbpfId::FacialStructure => "LxNR"@,
            DbpfId::MaxisMaterialShader => "MATSHAD"@,
            DbpfId::SimWantsAndFears => "SWAF"@,
            DbpfId::ContentRegistry => "CREG"@,
            DbpfId::CreationResource => "CRES"@,
            DbpfId::Directory => "DIR"@,
            DbpfId::EffectsResourceTree => "FX"@,
            DbpfId::PropertySet => "GZPS"@,
            DbpfId::VersionInformation => "VERS"@,
            DbpfId::NeighborhoodView => "NHVW"@,
            DbpfId::LargeImage => "LIFO"@,
            DbpfId::SingularLotObject => "OBJT"@,
            DbpfId::Animation => "ANIM"@,
            DbpfId::Shape => "SHPE"@,
            DbpfId::Unimplemented => "UNIMP"@,
        }
    }

    /// The kind's short mnemonic: exactly the registry's, never empty.
    pub fn short_name(&self) -> (r: &'static str)
        ensures
            r@ == self.spec_short_name(),
            r@.len() > 0,
    {
        let r = match self {

            DbpfId::UiData => "UI",
            DbpfId::WallGraph => "WGRA",
            DbpfId::TrackSettings => "TRKS",
            DbpfId::LotDescription => "DESC",
            DbpfId::BinaryIndex => "BINX",
            DbpfId::PoolSurface => "POOL",
            DbpfId::TextureResource => "TXTR",
            DbpfId::AudioFile => "XA",
            DbpfId::SceneNode => "5SC",
            DbpfId::ThreeDArray => "3ARY",
            DbpfId::TextureOverlayXML => "XTOL",
            DbpfId::Popups => "POPS",
            DbpfId::SimScores => "SCOR",
            DbpfId::BehaviorConstant => "BCON",
            DbpfId::BehaviorFunction => "BHAV",
            DbpfId::BitmapImage => "BMP",
            DbpfId::CatalogString => "CATS",
            DbpfId::ImageLink => "CIGE",
            DbpfId::CatalogDescription => "CTSS",
            DbpfId::Drawgroup => "DGRP",
            DbpfId::FaceProperties => "FACE",
            DbpfId::FamilyInformation => "FAMI",
            DbpfId::FamilyData => "FAMh",
            DbpfId::Function => "FCNS",
            DbpfId::AudioReference => "FWAV",
            DbpfId::GlobalData => "GLOB",
            DbpfId::HouseDescriptor => "HOUS",
            DbpfId::TexturedMaterial => "TXMT",
            DbpfId::WorldDatabase => "WRLD",
            DbpfId::LotTexture => "LTTX",
            DbpfId::SkinToneXml => "XSTN",
            DbpfId::CinematicScene => "CINE",
            DbpfId::NeighborhoodMemory => "NGBH",
            DbpfId::NameReference => "NREF",
            DbpfId::NameMap => "NMAP",
            DbpfId::ObjectData => "OBJD",
            DbpfId::ObjectFunction => "OBJF",
            DbpfId::ObjectMetadata => "OBJM",
            DbpfId::ImageColorPalette => "PALT",
            DbpfId::SimPersonalInformation => "PERS",
            DbpfId::StackScript => "POSI",
            DbpfId::PackageToolkit => "PTBP",
            DbpfId::SimInformation => "SIMI",
            DbpfId::ObjectSlot => "SLOT",
            DbpfId::Sprites => "SPR2",
            DbpfId::TextLists => "STR#",
            DbpfId::TTAT => "TTAT",
            DbpfId::BehaviorFunctionLabels => "TPRP",
            DbpfId::BehaviorConstantLabels => "TRCN",
            DbpfId::BehaviorFlowchartTree => "TREE",
            DbpfId::PieMenuFunctions => "TTAB",
            DbpfId::PieMenuSettings => "TTAs",
            DbpfId::MaterialObject => "XMTO",
            DbpfId::UnknownObject => "XOBJ",
            DbpfId::EnvironmentCubeLighting => "5EL",
            DbpfId::TwoDArray => "2ARY",
            DbpfId::LotDefinition => "LOT",
            DbpfId::Object => "MOBJT",
            DbpfId::Hitlist => "HLS",
            DbpfId::GeometricNode => "GMND",
            DbpfId::Lightmap => "LTMP",
            DbpfId::WallLayer => "WLL",
            DbpfId::Unknown1 => "UNK1",
            DbpfId::JpegImage => "JPG",
            DbpfId::FamilyTies => "FAMt",
            DbpfId::PredictiveMaps => "PMAP",
            DbpfId::SoundEffects => "SFX",
            DbpfId::Unknown2 => "UNK2",
            DbpfId::SimDescription => "PDAT",
            DbpfId::FencePostLayer => "FPL",
            DbpfId::Roof => "ROOF",
            DbpfId::LotTerrainGeometry => "LOTG",
            DbpfId::NeighborhoodTerrain => "NHTR",
            DbpfId::LinearFogLighting => "5LF",
            DbpfId::DrawStateLighting => "5DS",
            DbpfId::GeometricDataContainer => "GMDC",
            DbpfId::ThreeDReference => "3IDR",
            DbpfId::IdNumber => "NID",
            DbpfId::WeatherInfo => "WTHR",
            DbpfId::TssgSystem => "TSSG",
            DbpfId::Light => "LGHT",
            DbpfId::StringMap => "SMAP",
            DbpfId::VertexLayer => "VERT",
            DbpfId::Unknown3 => "UNK3",
            DbpfId::SimRelations => "SREL",
            DbpfId::Unknown4 => "UNK4",
            DbpfId::FacialStructure => "LxNR",
            DbpfId::MaxisMaterialShader => "MATSHAD",
            DbpfId::SimWantsAndFears => "SWAF",
            DbpfId::ContentRegistry => "CREG",
            DbpfId::CreationResource => "CRES",
            DbpfId::Directory => "DIR",
            DbpfId::EffectsResourceTree => "FX",
            DbpfId::PropertySet => "GZPS",
            DbpfId::VersionInformation => "VERS",
            DbpfId::NeighborhoodView => "NHVW",
            DbpfId::LargeImage => "LIFO",
            DbpfId::SingularLotObject => "OBJT",
            DbpfId::Animation => "ANIM",
            DbpfId::Shape => "SHPE",
            DbpfId::Unimplemented => "UNIMP",
        };
        proof {

            reveal_strlit("UI");
            reveal_strlit("WGRA");
            reveal_strlit("TRKS");
            reveal_strlit("DESC");
            reveal_strlit("BINX");
            reveal_strlit("POOL");
            reveal_strlit("TXTR");
            reveal_strlit("XA");
            reveal_strlit("5SC");
            reveal_strlit("3ARY");
            reveal_strlit("XTOL");
            reveal_strlit("POPS");
            reveal_strlit("SCOR");
            reveal_strlit("BCON");
            reveal_strlit("BHAV");
            reveal_strlit("BMP");
            reveal_strlit("CATS");
            reveal_strlit("CIGE");
            reveal_strlit("CTSS");
            reveal_strlit("DGRP");
            reveal_strlit("FACE");
            reveal_strlit("FAMI");
            reveal_strlit("FAMh");
            reveal_strlit("FCNS");
            reveal_strlit("FWAV");
            reveal_strlit("GLOB");
            reveal_strlit("HOUS");
            reveal_strlit("TXMT");
            reveal_strlit("WRLD");
            reveal_strlit("LTTX");
            reveal_strlit("XSTN");
            reveal_strlit("CINE");
            reveal_strlit("NGBH");
            reveal_strlit("NREF");
            reveal_strlit("NMAP");
            reveal_strlit("OBJD");
            reveal_strlit("OBJF");
            reveal_strlit("OBJM");
            reveal_strlit("PALT");
            reveal_strlit("PERS");
            reveal_strlit("POSI");
            reveal_strlit("PTBP");
            reveal_strlit("SIMI");
            reveal_strlit("SLOT");
            reveal_strlit("SPR2");
            reveal_strlit("STR#");
            reveal_strlit("TTAT");
            reveal_strlit("TPRP");
            reveal_strlit("TRCN");
            reveal_strlit("TREE");
            reveal_strlit("TTAB");
            reveal_strlit("TTAs");
            reveal_strlit("XMTO");
            reveal_strlit("XOBJ");
            reveal_strlit("5EL");
            reveal_strlit("2ARY");
            reveal_strlit("LOT");
            reveal_strlit("MOBJT");
            reveal_strlit("HLS");
            reveal_strlit("GMND");
            reveal_strlit("LTMP");
            reveal_strlit("WLL");
            reveal_strlit("UNK1");
            reveal_strlit("JPG");
            reveal_strlit("FAMt");
            reveal_strlit("PMAP");
            reveal_strlit("SFX");
            reveal_strlit("UNK2");
            reveal_strlit("PDAT");
            reveal_strlit("FPL");
            reveal_strlit("ROOF");
            reveal_strlit("LOTG");
            reveal_strlit("NHTR");
            reveal_strlit("5LF");
            reveal_strlit("5DS");
            reveal_strlit("GMDC");
            reveal_strlit("3IDR");
            reveal_strlit("NID");
            reveal_strlit("WTHR");
            reveal_strlit("TSSG");
            reveal_strlit("LGHT");
            reveal_strlit("SMAP");
            reveal_strlit("VERT");
            reveal_strlit("UNK3");
            reveal_strlit("SREL");
            reveal_strlit("UNK4");
            reveal_strlit("LxNR");
            reveal_strlit("MATSHAD");
            reveal_strlit("SWAF");
            reveal_strlit("CREG");
            reveal_strlit("CRES");
            reveal_strlit("DIR");
            reveal_strlit("FX");
            reveal_strlit("GZPS");
            reveal_strlit("VERS");
            reveal_strlit("NHVW");
            reveal_strlit("LIFO");
            reveal_strlit("OBJT");
            reveal_strlit("ANIM");
            reveal_strlit("SHPE");
            reveal_strlit("UNIMP");
        }
        r
    }

    /// The kind's human-readable name.
    pub open spec fn spec_long_name(self) -> Seq<char> {
        match self {

            DbpfId::UiData => "UI Data"@,
            DbpfId::WallGraph => "Wall Graph"@,
            DbpfId::TrackSettings => "Track Settings"@,
            DbpfId::LotDescription => "Lot Description"@,
            DbpfId::BinaryIndex => "Binary Index"@,
            DbpfId::PoolSurface => "Pool Surface"@,
            DbpfId::TextureResource => "Texture Image"@,
            DbpfId::AudioFile => "Audio File"@,
            DbpfId::SceneNode => "5SC"@,
            DbpfId::ThreeDArray => "3D Array"@,
            DbpfId::TextureOverlayXML => "Texture Overlay XML"@,
            DbpfId::Popups => "Popups"@,
            DbpfId::SimScores => "Sim: Scores"@,
            DbpfId::BehaviorConstant => "Behavior Constant"@,
            DbpfId::BehaviorFunction => "Behavior Function"@,
            DbpfId::BitmapImage => "Bitmap Image"@,
            DbpfId::CatalogString => "Catalog String"@,
            DbpfId::ImageLink => "Image Link"@,
            DbpfId::CatalogDescription => "Catalog Description"@,
            DbpfId::Drawgroup => "Drawgroup"@,
            DbpfId::FaceProperties => "Face Properties"@,
            DbpfId::FamilyInformation => "Family Information"@,
            DbpfId::FamilyData => "Family Data"@,
            DbpfId::Function => "Function"@,
            DbpfId::AudioReference => "Audio Reference"@,
            DbpfId::GlobalData => "Global Data"@,
            DbpfId::HouseDescriptor => "House Descriptor"@,
            DbpfId::TexturedMaterial => "Textured Material"@,
            DbpfId::WorldDatabase => "World Database"@,
            DbpfId::LotTexture => "Lot Texture"@,
            DbpfId::SkinToneXml => "Skin Tone XML"@,
            DbpfId::CinematicScene => "Cinematic Scene"@,
            DbpfId::NeighborhoodMemory => "Neighborhood/Memory"@,
            DbpfId::NameReference => "Name Reference"@,
            DbpfId::NameMap => "Name Map"@,
            DbpfId::ObjectData => "Object Data"@,
            DbpfId::ObjectFunction => "Object Functions"@,
            DbpfId::ObjectMetadata => "Object Metadata Imposters"@,
            DbpfId::ImageColorPalette => "Image Color Palette"@,
            DbpfId::SimPersonalInformation => "Sim Personal Information"@,
            DbpfId::StackScript => "Stack Script"@,
            DbpfId::PackageToolkit => "Package Toolkit"@,
            DbpfId::SimInformation => "Sim Information"@,
            DbpfId::ObjectSlot => "Object Slot"@,
            DbpfId::Sprites => "Sprites"@,
            DbpfId::TextLists => "Text Lists"@,
            DbpfId::TTAT => "TTAT"@,
            DbpfId::BehaviorFunctionLabels => "Behavior Function Labels"@,
            DbpfId::BehaviorConstantLabels => "Behavior Constant Labels"@,
            DbpfId::BehaviorFlowchartTree => "Behavior Flowchart Tree"@,
            DbpfId::PieMenuFunctions => "Pie Menu Functions"@,
            DbpfId::PieMenuSettings => "Pie Menu Settings"@,
            DbpfId::MaterialObject => "Material Object"@,
            DbpfId::UnknownObject => "X Unknown Object"@,
            DbpfId::EnvironmentCubeLighting => "Environment Cube Lighting"@,
            DbpfId::TwoDArray => "2D Array"@,
            DbpfId::LotDefinition => "Lot Definition"@,
            DbpfId::Object => "Object"@,
            DbpfId::Hitlist => "Hitlist"@,
            DbpfId::GeometricNode => "Geometric Node"@,
            DbpfId::Lightmap => "Lightmap"@,
            DbpfId::WallLayer => "Wall Layer"@,
            DbpfId::Unknown1 => "Unknown 1 (0x8b0c79d6)"@,
            DbpfId::JpegImage => "JPEG Image"@,
            DbpfId::FamilyTies => "Family Ties"@,
            DbpfId::PredictiveMaps => "Predictive Maps"@,
            DbpfId::SoundEffects => "Sound Effects"@,
            DbpfId::Unknown2 => "Unknown 2 (0x9d796db4)"@,
            DbpfId::SimDescription => "Sim Description"@,
            DbpfId::FencePostLayer => "Fence Post Layer"@,
            DbpfId::Roof => "Roof"@,
            DbpfId::LotTerrainGeometry => "Lot Terrain Geometry"@,
            DbpfId::NeighborhoodTerrain => "Neighborhood Terrain"@,
            DbpfId::LinearFogLighting => "Linear Fog Lighting"@,
            DbpfId::DrawStateLighting => "Draw State Lighting"@,
            DbpfId::GeometricDataContainer => "Geometric Data Container"@,
            DbpfId::ThreeDReference => "3D ID Referencing"@,
            DbpfId::IdNumber => "ID Number"@,
            DbpfId::WeatherInfo => "Weather Info"@,
            DbpfId::TssgSystem => "TSSG System"@,
            DbpfId::Light => "Light"@,
            DbpfId::StringMap => "String Map"@,
            DbpfId::VertexLayer => "Vertex Layer"@,
            DbpfId::Unknown3 => "Unknown 3 (0xcc2a6a34)"@,
            DbpfId::SimRelations => "Sim Relations"@,
            DbpfId::Unknown4 => "Unknown 4 (0xcc8a6a69)"@,
            DbpfId::FacialStructure => "Facial Structure"@,
            DbpfId::MaxisMaterialShader => "Maxis Material Shader"@,
            DbpfId::SimWantsAndFears => "Sim Wants and Fears"@,
            DbpfId::ContentRegistry => "Content Registry"@,
            DbpfId::CreationResource => "Creation Resource"@,
            DbpfId::Directory => "Directory of Compressed Files"@,
            DbpfId::EffectsResourceTree => "Effects Resource Tree"@,
            DbpfId::PropertySet => "Property Set"@,
            DbpfId::VersionInformation => "Version Information"@,
            DbpfId::NeighborhoodView => "Neighborhood View"@,
            DbpfId::LargeImage => "Large Image"@,
            DbpfId::SingularLotObject => "Singular Lot Object"@,
            DbpfId::Animation => "animation"@,
            DbpfId::Shape => "Shape"@,
            DbpfId::Unimplemented => "Unimplemented"@,
        }
    }

    /// The kind's human-readable name: exactly the registry's, never empty.
    pub fn long_name(&self) -> (r: &'static str)
        ensures
            r@ == self.spec_long_name(),
            r@.len() > 0,
    {
        let r = match self {

            DbpfId::UiData => "UI Data",
            DbpfId::WallGraph => "Wall Graph",
            DbpfId::TrackSettings => "Track Settings",
            DbpfId::LotDescription => "Lot Description",
            DbpfId::BinaryIndex => "Binary Index",
            DbpfId::PoolSurface => "Pool Surface",
            DbpfId::TextureResource => "Texture Image",
            DbpfId::AudioFile => "Audio File",
            DbpfId::SceneNode => "5SC",
            DbpfId::ThreeDArray => "3D Array",
            DbpfId::TextureOverlayXML => "Texture Overlay XML",
            DbpfId::Popups => "Popups",
            DbpfId::SimScores => "Sim: Scores",
            DbpfId::BehaviorConstant => "Behavior Constant",
            DbpfId::BehaviorFunction => "Behavior Function",
            DbpfId::BitmapImage => "Bitmap Image",
            DbpfId::CatalogString => "Catalog String",
            DbpfId::ImageLink => "Image Link",
            DbpfId::CatalogDescription => "Catalog Description",
            DbpfId::Drawgroup => "Drawgroup",
            DbpfId::FaceProperties => "Face Properties",
            DbpfId::FamilyInformation => "Family Information",
            DbpfId::FamilyData => "Family Data",
            DbpfId::Function => "Function",
            DbpfId::AudioReference => "Audio Reference",
            DbpfId::GlobalData => "Global Data",
            DbpfId::HouseDescriptor => "House Descriptor",
            DbpfId::TexturedMaterial => "Textured Material",
            DbpfId::WorldDatabase => "World Database",
            DbpfId::LotTexture => "Lot Texture",
            DbpfId::SkinToneXml => "Skin Tone XML",
            DbpfId::CinematicScene => "Cinematic Scene",
            DbpfId::NeighborhoodMemory => "Neighborhood/Memory",
            DbpfId::NameReference => "Name Reference",
            DbpfId::NameMap => "Name Map",
            DbpfId::ObjectData => "Object Data",
            DbpfId::ObjectFunction => "Object Functions",
            DbpfId::ObjectMetadata => "Object Metadata Imposters",
            DbpfId::ImageColorPalette => "Image Color Palette",
            DbpfId::SimPersonalInformation => "Sim Personal Information",
            DbpfId::StackScript => "Stack Script",
            DbpfId::PackageToolkit => "Package Toolkit",
            DbpfId::SimInformation => "Sim Information",
            DbpfId::ObjectSlot => "Object Slot",
            DbpfId::Sprites => "Sprites",
            DbpfId::TextLists => "Text Lists",
            DbpfId::TTAT => "TTAT",
            DbpfId::BehaviorFunctionLabels => "Behavior Function Labels",
            DbpfId::BehaviorConstantLabels => "Behavior Constant Labels",
            DbpfId::BehaviorFlowchartTree => "Behavior Flowchart Tree",
            DbpfId::PieMenuFunctions => "Pie Menu Functions",
            DbpfId::PieMenuSettings => "Pie Menu Settings",
            DbpfId::MaterialObject => "Material Object",
            DbpfId::UnknownObject => "X Unknown Object",
            DbpfId::EnvironmentCubeLighting => "Environment Cube Lighting",
            DbpfId::TwoDArray => "2D Array",
            DbpfId::LotDefinition => "Lot Definition",
            DbpfId::Object => "Object",
            DbpfId::Hitlist => "Hitlist",
            DbpfId::GeometricNode => "Geometric Node",
            DbpfId::Lightmap => "Lightmap",
            DbpfId::WallLayer => "Wall Layer",
            DbpfId::Unknown1 => "Unknown 1 (0x8b0c79d6)",
            DbpfId::JpegImage => "JPEG Image",
            DbpfId::FamilyTies => "Family Ties",
            DbpfId::PredictiveMaps => "Predictive Maps",
            DbpfId::SoundEffects => "Sound Effects",
            DbpfId::Unknown2 => "Unknown 2 (0x9d796db4)",
            DbpfId::SimDescription => "Sim Description",
            DbpfId::FencePostLayer => "Fence Post Layer",
            DbpfId::Roof => "Roof",
            DbpfId::LotTerrainGeometry => "Lot Terrain Geometry",
            DbpfId::NeighborhoodTerrain => "Neighborhood Terrain",
            DbpfId::LinearFogLighting => "Linear Fog Lighting",
            DbpfId::DrawStateLighting => "Draw State Lighting",
            DbpfId::GeometricDataContainer => "Geometric Data Container",
            DbpfId::ThreeDReference => "3D ID Referencing",
            DbpfId::IdNumber => "ID Number",
            DbpfId::WeatherInfo => "Weather Info",
            DbpfId::TssgSystem => "TSSG System",
            DbpfId::Light => "Light",
            DbpfId::StringMap => "String Map",
            DbpfId::VertexLayer => "Vertex Layer",
            DbpfId::Unknown3 => "Unknown 3 (0xcc2a6a34)",
            DbpfId::SimRelations => "Sim Relations",
            DbpfId::Unknown4 => "Unknown 4 (0xcc8a6a69)",
            DbpfId::FacialStructure => "Facial Structure",
            DbpfId::MaxisMaterialShader => "Maxis Material Shader",
            DbpfId::SimWantsAndFears => "Sim Wants and Fears",
            DbpfId::ContentRegistry => "Content Registry",
            DbpfId::CreationResource => "Creation Resource",
            DbpfId::Directory => "Directory of Compressed Files",
            DbpfId::EffectsResourceTree => "Effects Resource Tree",
            DbpfId::PropertySet => "Property Set",
            DbpfId::VersionInformation => "Version Information",
            DbpfId::NeighborhoodView => "Neighborhood View",
            DbpfId::LargeImage => "Large Image",
            DbpfId::SingularLotObject => "Singular Lot Object",
            DbpfId::Animation => "animation",
            DbpfId::Shape => "Shape",
            DbpfId::Unimplemented => "Unimplemented",
        };
        proof {

            reveal_strlit("UI Data");
            reveal_strlit("Wall Graph");
            reveal_strlit("Track Settings");
            reveal_strlit("Lot Description");
            reveal_strlit("Binary Index");
            reveal_strlit("Pool Surface");
            reveal_strlit("Texture Image");
            reveal_strlit("Audio File");
            reveal_strlit("5SC");
            reveal_strlit("3D Array");
            reveal_strlit("Texture Overlay XML");
            reveal_strlit("Popups");
            reveal_strlit("Sim: Scores");
            reveal_strlit("Behavior Constant");
            reveal_strlit("Behavior Function");
            reveal_strlit("Bitmap Image");
            reveal_strlit("Catalog String");
            reveal_strlit("Image Link");
            reveal_strlit("Catalog Description");
            reveal_strlit("Drawgroup");
            reveal_strlit("Face Properties");
            reveal_strlit("Family Information");
            reveal_strlit("Family Data");
            reveal_strlit("Function");
            reveal_strlit("Audio Reference");
            reveal_strlit("Global Data");
            reveal_strlit("House Descriptor");
            reveal_strlit("Textured Material");
            reveal_strlit("World Database");
            reveal_strlit("Lot Texture");
            reveal_strlit("Skin Tone XML");
            reveal_strlit("Cinematic Scene");
            reveal_strlit("Neighborhood/Memory");
            reveal_strlit("Name Reference");
            reveal_strlit("Name Map");
            reveal_strlit("Object Data");
            reveal_strlit("Object Functions");
            reveal_strlit("Object Metadata Imposters");
            reveal_strlit("Image Color Palette");
            reveal_strlit("Sim Personal Information");
            reveal_strlit("Stack Script");
            reveal_strlit("Package Toolkit");
            reveal_strlit("Sim Information");
            reveal_strlit("Object Slot");
            reveal_strlit("Sprites");
            reveal_strlit("Text Lists");
            reveal_strlit("TTAT");
            reveal_strlit("Behavior Function Labels");
            reveal_strlit("Behavior Constant Labels");
            reveal_strlit("Behavior Flowchart Tree");
            reveal_strlit("Pie Menu Functions");
            reveal_strlit("Pie Menu Settings");
            reveal_strlit("Material Object");
            reveal_strlit("X Unknown Object");
            reveal_strlit("Environment Cube Lighting");
            reveal_strlit("2D Array");
            reveal_strlit("Lot Definition");
            reveal_strlit("Object");
            reveal_strlit("Hitlist");
            reveal_strlit("Geometric Node");
            reveal_strlit("Lightmap");
            reveal_strlit("Wall Layer");
            reveal_strlit("Unknown 1 (0x8b0c79d6)");
            reveal_strlit("JPEG Image");
            reveal_strlit("Family Ties");
            reveal_strlit("Predictive Maps");
            reveal_strlit("Sound Effects");
            reveal_strlit("Unknown 2 (0x9d796db4)");
            reveal_strlit("Sim Description");
            reveal_strlit("Fence Post Layer");
            reveal_strlit("Roof");
            reveal_strlit("Lot Terrain Geometry");
            reveal_strlit("Neighborhood Terrain");
            reveal_strlit("Linear Fog Lighting");
            reveal_strlit("Draw State Lighting");
            reveal_strlit("Geometric Data Container");
            reveal_strlit("3D ID Referencing");
            reveal_strlit("ID Number");
            reveal_strlit("Weather Info");
            reveal_strlit("TSSG System");
            reveal_strlit("Light");
            reveal_strlit("String Map");
            reveal_strlit("Vertex Layer");
            reveal_strlit("Unknown 3 (0xcc2a6a34)");
            reveal_strlit("Sim Relations");
            reveal_strlit("Unknown 4 (0xcc8a6a69)");
            reveal_strlit("Facial Structure");
            reveal_strlit("Maxis Material Shader");
            reveal_strlit("Sim Wants and Fears");
            reveal_strlit("Content Registry");
            reveal_strlit("Creation Resource");
            reveal_strlit("Directory of Compressed Files");
            reveal_strlit("Effects Resource Tree");
            reveal_strlit("Property Set");
            reveal_strlit("Version Information");
            reveal_strlit("Neighborhood View");
            reveal_strlit("Large Image");
            reveal_strlit("Singular Lot Object");
            reveal_strlit("animation");
            reveal_strlit("Shape");
            reveal_strlit("Unimplemented");
        }
        r
    }
}

/// Mapping a kind to its type code and back yields the kind again: no two
/// kinds share a code, and the catch-all's own code maps to itself.
pub proof fn lemma_kind_code_round_trip(k: DbpfId)
    ensures
        DbpfId::spec_from_id(k.spec_id()) == k,
{
}

/// What a decoded resource offers the archive: the kind it decodes and,
/// for kinds that carry one, a file name.
pub trait DbpfEntry {
    /// The kind this payload was decoded as.
    fn id(&self) -> DbpfId;

    /// The payload's file name, for the kinds that store one.
    fn name(&self) -> (r: Option<String>) {
        None
    }
}

/// The fallback payload for a resource no decoder claims: its raw bytes,
/// kept unmodified.
#[derive(Debug, Clone, PartialEq, Eq)]
pub struct Unimplemented {
    pub data: Vec<u8>,
}

impl Unimplemented {
    /// Wraps raw bytes.
    pub fn new(data: Vec<u8>) -> (r: Unimplemented)
        ensures
            r.data@ == data@,
    {
        Unimplemented { data }
    }
}

impl DbpfEntry for Unimplemented {
    fn id(&self) -> (r: DbpfId)
        ensures
            r == DbpfId::Unimplemented,
    {
        DbpfId::Unimplemented
    }
}

} // verus!
