//! Cartridge header decoding: licensee tables, the cartridge
//! descriptor, and the header fields at 0x0100–0x014F.

use vstd::prelude::*;

use vstd::string::StringSliceAdditionalSpecFns;

use crate::gb::GameBoy;

verus! {

/// Publisher named by the two-character new-licensee code at
/// 0x0144–0x0145.
#[derive(Clone, Copy, Debug, PartialEq, Eq, Structural)]
pub enum NewLicensee {
    NoPublisher,
    NintendoRD1,
    Capcom,
    ElectronicArts,
    HudsonSoft,
    BAI,
    KSS,
    PlanningOfficeWADA,
    PCMComplete,
    SanX,
    Kemco,
    SETACorporation,
    Viacom,
    Nintendo,
    Bandai,
    OceanSoftwareAcclaim,
    Konami,
    HectorSoft,
    Taito,
    Banpresto,
    UbiSoft,
    Atlus,
    MalibuInteractive,
    Angel,
    BulletProofSoftware,
    Irem,
    Absolute,
    AcclaimEntertainment,
    Activision,
    SammyUSACorporation,
    HiTechExpressions,
    LJN,
    Matchbox,
    Mattel,
    MiltonBradleyCompany,
    TitusInteractive,
    VirginGames,
    LucasfilmGames,
    Infogrames,
    InterplayEntertainment,
    Broderbund,
    SculpturedSoftware,
    TheSalesCurveLimited,
    THQ,
    Accolade,
    MisawaEntertainment,
    Lozc,
    TokumaShoten,
    TsukudaOriginal,
    ChunsoftCo,
    VideoSystem,
    Varie,
    YonezawaSpal,
    Kaneko,
    PackInVideo,
    BottomUp,
    MTO,
    Kodansha,
    Unknown,
}

/// Publisher named by the old-licensee byte at 0x014B.
#[derive(Clone, Copy, Debug, PartialEq, Eq, Structural)]
pub enum OldLicensee {
    NoPublisher,
    Nintendo,
    Capcom,
    HOTB,
    Jaleco,
    CoconutsJapan,
    EliteSystems,
    ElectronicArts,
    HudsonSoft,
    ITCEntertainment,
    Yanoman,
    JapanClary,
    VirginGames,
    PCMComplete,
    SanX,
    Kemco,
    SETACorporation,
    Infogrames,
    Bandai,
    UseNewLicenseeCode,
    Konami,
    HectorSoft,
    Banpresto,
    EntertainmentInteractive,
    Gremlin,
    UbiSoft,
    Atlus,
    MalibuInteractive,
    Angel,
    SpectrumHoloByte,
    Irem,
    USGold,
    Absolute,
    AcclaimEntertainment,
    Activision,
    SammyUSACorporation,
    GameTek,
    ParkPlace,
    LJN,
    Matchbox,
    MiltonBradleyCompany,
    Mindscape,
    Romstar,
    NaxatSoft,
    Tradewest,
    TitusInteractive,
    OceanSoftware,
    ElectroBrain,
    InterplayEntertainment,
    Broderbund,
    SculpturedSoftware,
    TheSalesCurveLimited,
    THQ,
    Accolade,
    TriffixEntertainment,
    MicroProse,
    MisawaEntertainment,
    LOZCG,
    TokumaShoten,
    BulletProofSoftware,
    VicTokaiCorp,
    ApeInc,
    IMax,
    ChunsoftCo,
    VideoSystem,
    TsubarayaProductions,
    Varie,
    Yonezawa,
    Arc,
    NihonBussan,
    Tecmo,
    Imagineer,
    Nova,
    HoriElectric,
    Kawada,
    Takara,
    TechnosJapan,
    ToeiAnimation,
    Toho,
    Namco,
    ASCIICorporation,
    SquareEnix,
    HALLaboratory,
    SNK,
    PonyCanyon,
    CultureBrain,
    Sunsoft,
    SonyImagesoft,
    SammyCorporation,
    Taito,
    Square,
    DataEast,
    TonkinHouse,
    Koei,
    UFL,
    UltraGames,
    VAPInc,
    UseCorporation,
    Meldac,
    SOFEL,
    Quest,
    SigmaEnterprises,
    ASKKodansha,
    CopyaSystem,
    Tomy,
    NipponComputerSystems,
    HumanEnt,
    Altron,
    TowaChiki,
    Yutaka,
    Epoch,
    Athena,
    AsmikAceEntertainment,
    Natsume,
    KingRecords,
    EpicSonyRecords,
    IGS,
    AWave,
    ExtremeEntertainment,
    Unknown,
}

/// The publisher named by a two-byte ASCII new-licensee code.
pub open spec fn new_licensee_of(b0: u8, b1: u8) -> NewLicensee {
    if b0 == 48 && b1 == 48 { NewLicensee::NoPublisher
    } else if b0 == 48 && b1 == 49 { NewLicensee::NintendoRD1
    } else if b0 == 48 && b1 == 56 { NewLicensee::Capcom
    } else if b0 == 49 && b1 == 51 { NewLicensee::ElectronicArts
    } else if b0 == 54 && b1 == 57 { NewLicensee::ElectronicArts
    } else if b0 == 49 && b1 == 56 { NewLicensee::HudsonSoft
    } else if b0 == 51 && b1 == 56 { NewLicensee::HudsonSoft
    } else if b0 == 49 && b1 == 57 { NewLicensee::BAI
    } else if b0 == 50 && b1 == 48 { NewLicensee::KSS
    } else if b0 == 50 && b1 == 50 { NewLicensee::PlanningOfficeWADA
    } else if b0 == 50 && b1 == 52 { NewLicensee::PCMComplete
    } else if b0 == 50 && b1 == 53 { NewLicensee::SanX
    } else if b0 == 50 && b1 == 56 { NewLicensee::Kemco
    } else if b0 == 50 && b1 == 57 { NewLicensee::SETACorporation
    } else if b0 == 51 && b1 == 48 { NewLicensee::Viacom
    } else if b0 == 51 && b1 == 49 { NewLicensee::Nintendo
    } else if b0 == 51 && b1 == 50 { NewLicensee::Bandai
    } else if b0 == 51 && b1 == 51 { NewLicensee::OceanSoftwareAcclaim
    } else if b0 == 54 && b1 == 55 { NewLicensee::OceanSoftwareAcclaim
    } else if b0 == 57 && b1 == 51 { NewLicensee::OceanSoftwareAcclaim
    } else if b0 == 51 && b1 == 52 { NewLicensee::Konami
    } else if b0 == 53 && b1 == 52 { NewLicensee::Konami
    } else if b0 == 65 && b1 == 52 { NewLicensee::Konami
    } else if b0 == 51 && b1 == 53 { NewLicensee::HectorSoft
    } else if b0 == 51 && b1 == 55 { NewLicensee::Taito
    } else if b0 == 51 && b1 == 57 { NewLicensee::Banpresto
    } else if b0 == 52 && b1 == 49 { NewLicensee::UbiSoft
    } else if b0 == 52 && b1 == 50 { NewLicensee::Atlus
    } else if b0 == 52 && b1 == 52 { NewLicensee::MalibuInteractive
    } else if b0 == 52 && b1 == 54 { NewLicensee::Angel
    } else if b0 == 52 && b1 == 55 { NewLicensee::BulletProofSoftware
    } else if b0 == 52 && b1 == 57 { NewLicensee::Irem
    } else if b0 == 53 && b1 == 48 { NewLicensee::Absolute
    } else if b0 == 53 && b1 == 49 { NewLicensee::AcclaimEntertainment
    } else if b0 == 53 && b1 == 50 { NewLicensee::Activision
    } else if b0 == 53 && b1 == 51 { NewLicensee::SammyUSACorporation
    } else if b0 == 53 && b1 == 53 { NewLicensee::HiTechExpressions
    } else if b0 == 53 && b1 == 54 { NewLicensee::LJN
    } else if b0 == 53 && b1 == 55 { NewLicensee::Matchbox
    } else if b0 == 53 && b1 == 56 { NewLicensee::Mattel
    } else if b0 == 53 && b1 == 57 { NewLicensee::MiltonBradleyCompany
    } else if b0 == 54 && b1 == 48 { NewLicensee::TitusInteractive
    } else if b0 == 54 && b1 == 49 { NewLicensee::VirginGames
    } else if b0 == 54 && b1 == 52 { NewLicensee::LucasfilmGames
    } else if b0 == 55 && b1 == 48 { NewLicensee::Infogrames
    } else if b0 == 55 && b1 == 49 { NewLicensee::InterplayEntertainment
    } else if b0 == 55 && b1 == 50 { NewLicensee::Broderbund
    } else if b0 == 55 && b1 == 51 { NewLicensee::SculpturedSoftware
    } else if b0 == 55 && b1 == 53 { NewLicensee::TheSalesCurveLimited
    } else if b0 == 55 && b1 == 56 { NewLicensee::THQ
    } else if b0 == 55 && b1 == 57 { NewLicensee::Accolade
    } else if b0 == 56 && b1 == 48 { NewLicensee::MisawaEntertainment
    } else if b0 == 56 && b1 == 51 { NewLicensee::Lozc
    } else if b0 == 56 && b1 == 54 { NewLicensee::TokumaShoten
    } else if b0 == 56 && b1 == 55 { NewLicensee::TsukudaOriginal
    } else if b0 == 57 && b1 == 49 { NewLicensee::ChunsoftCo
    } else if b0 == 57 && b1 == 50 { NewLicensee::VideoSystem
    } else if b0 == 57 && b1 == 53 { NewLicensee::Varie
    } else if b0 == 57 && b1 == 54 { NewLicensee::YonezawaSpal
    } else if b0 == 57 && b1 == 55 { NewLicensee::Kaneko
    } else if b0 == 57 && b1 == 57 { NewLicensee::PackInVideo
    } else if b0 == 57 && b1 == 72 { NewLicensee::BottomUp
    } else if b0 == 66 && b1 == 76 { NewLicensee::MTO
    } else if b0 == 68 && b1 == 75 { NewLicensee::Kodansha
    } else { NewLicensee::Unknown }
}

/// The publisher named by an old-licensee byte.
pub open spec fn old_licensee_of(value: u8) -> OldLicensee {
    if value == 0 { OldLicensee::NoPublisher
    } else if value == 1 { OldLicensee::Nintendo
    } else if value == 49 { OldLicensee::Nintendo
    } else if value == 8 { OldLicensee::Capcom
    } else if value == 56 { OldLicensee::Capcom
    } else if value == 9 { OldLicensee::HOTB
    } else if value == 10 { OldLicensee::Jaleco
    } else if value == 224 { OldLicensee::Jaleco
    } else if value == 11 { OldLicensee::CoconutsJapan
    } else if value == 12 { OldLicensee::EliteSystems
    } else if value == 110 { OldLicensee::EliteSystems
    } else if value == 19 { OldLicensee::ElectronicArts
    } else if value == 105 { OldLicensee::ElectronicArts
    } else if value == 24 { OldLicensee::HudsonSoft
    } else if value == 25 { OldLicensee::ITCEntertainment
    } else if value == 26 { OldLicensee::Yanoman
    } else if value == 29 { OldLicensee::JapanClary
    } else if value == 31 { OldLicensee::VirginGames
    } else if value == 74 { OldLicensee::VirginGames
    } else if value == 97 { OldLicensee::VirginGames
    } else if value == 36 { OldLicensee::PCMComplete
    } else if value == 37 { OldLicensee::SanX
    } else if value == 40 { OldLicensee::Kemco
    } else if value == 127 { OldLicensee::Kemco
    } else if value == 151 { OldLicensee::Kemco
    } else if value == 194 { OldLicensee::Kemco
    } else if value == 41 { OldLicensee::SETACorporation
    } else if value == 48 { OldLicensee::Infogrames
    } else if value == 112 { OldLicensee::Infogrames
    } else if value == 50 { OldLicensee::Bandai
    } else if value == 162 { OldLicensee::Bandai
    } else if value == 178 { OldLicensee::Bandai
    } else if value == 51 { OldLicensee::UseNewLicenseeCode
    } else if value == 52 { OldLicensee::Konami
    } else if value == 164 { OldLicensee::Konami
    } else if value == 53 { OldLicensee::HectorSoft
    } else if value == 57 { OldLicensee::Banpresto
    } else if value == 157 { OldLicensee::Banpresto
    } else if value == 217 { OldLicensee::Banpresto
    } else if value == 60 { OldLicensee::EntertainmentInteractive
    } else if value == 62 { OldLicensee::Gremlin
    } else if value == 65 { OldLicensee::UbiSoft
    } else if value == 66 { OldLicensee::Atlus
    } else if value == 235 { OldLicensee::Atlus
    } else if value == 68 { OldLicensee::MalibuInteractive
    } else if value == 77 { OldLicensee::MalibuInteractive
    } else if value == 70 { OldLicensee::Angel
    } else if value == 207 { OldLicensee::Angel
    } else if value == 71 { OldLicensee::SpectrumHoloByte
    } else if value == 73 { OldLicensee::Irem
    } else if value == 79 { OldLicensee::USGold
    } else if value == 80 { OldLicensee::Absolute
    } else if value == 81 { OldLicensee::AcclaimEntertainment
    } else if value == 176 { OldLicensee::AcclaimEntertainment
    } else if value == 82 { OldLicensee::Activision
    } else if value == 83 { OldLicensee::SammyUSACorporation
    } else if value == 84 { OldLicensee::GameTek
    } else if value == 85 { OldLicensee::ParkPlace
    } else if value == 86 { OldLicensee::LJN
    } else if value == 219 { OldLicensee::LJN
    } else if value == 255 { OldLicensee::LJN
    } else if value == 87 { OldLicensee::Matchbox
    } else if value == 89 { OldLicensee::MiltonBradleyCompany
    } else if value == 90 { OldLicensee::Mindscape
    } else if value == 91 { OldLicensee::Romstar
    } else if value == 92 { OldLicensee::NaxatSoft
    } else if value == 214 { OldLicensee::NaxatSoft
    } else if value == 93 { OldLicensee::Tradewest
    } else if value == 96 { OldLicensee::TitusInteractive
    } else if value == 103 { OldLicensee::OceanSoftware
    } else if value == 111 { OldLicensee::ElectroBrain
    } else if value == 113 { OldLicensee::InterplayEntertainment
    } else if value == 114 { OldLicensee::Broderbund
    } else if value == 170 { OldLicensee::Broderbund
    } else if value == 115 { OldLicensee::SculpturedSoftware
    } else if value == 117 { OldLicensee::TheSalesCurveLimited
    } else if value == 120 { OldLicensee::THQ
    } else if value == 121 { OldLicensee::Accolade
    } else if value == 122 { OldLicensee::TriffixEntertainment
    } else if value == 124 { OldLicensee::MicroProse
    } else if value == 128 { OldLicensee::MisawaEntertainment
    } else if value == 131 { OldLicensee::LOZCG
    } else if value == 134 { OldLicensee::TokumaShoten
    } else if value == 196 { OldLicensee::TokumaShoten
    } else if value == 139 { OldLicensee::BulletProofSoftware
    } else if value == 140 { OldLicensee::VicTokaiCorp
    } else if value == 142 { OldLicensee::ApeInc
    } else if value == 143 { OldLicensee::IMax
    } else if value == 145 { OldLicensee::ChunsoftCo
    } else if value == 146 { OldLicensee::VideoSystem
    } else if value == 147 { OldLicensee::TsubarayaProductions
    } else if value == 149 { OldLicensee::Varie
    } else if value == 227 { OldLicensee::Varie
    } else if value == 150 { OldLicensee::Yonezawa
    } else if value == 153 { OldLicensee::Arc
    } else if value == 154 { OldLicensee::NihonBussan
    } else if value == 155 { OldLicensee::Tecmo
    } else if value == 156 { OldLicensee::Imagineer
    } else if value == 159 { OldLicensee::Nova
    } else if value == 161 { OldLicensee::HoriElectric
    } else if value == 166 { OldLicensee::Kawada
    } else if value == 167 { OldLicensee::Takara
    } else if value == 169 { OldLicensee::TechnosJapan
    } else if value == 172 { OldLicensee::ToeiAnimation
    } else if value == 173 { OldLicensee::Toho
    } else if value == 175 { OldLicensee::Namco
    } else if value == 177 { OldLicensee::ASCIICorporation
    } else if value == 180 { OldLicensee::SquareEnix
    } else if value == 182 { OldLicensee::HALLaboratory
    } else if value == 183 { OldLicensee::SNK
    } else if value == 185 { OldLicensee::PonyCanyon
    } else if value == 206 { OldLicensee::PonyCanyon
    } else if value == 186 { OldLicensee::CultureBrain
    } else if value == 187 { OldLicensee::Sunsoft
    } else if value == 189 { OldLicensee::SonyImagesoft
    } else if value == 191 { OldLicensee::SammyCorporation
    } else if value == 192 { OldLicensee::Taito
    } else if value == 208 { OldLicensee::Taito
    } else if value == 195 { OldLicensee::Square
    } else if value == 197 { OldLicensee::DataEast
    } else if value == 198 { OldLicensee::TonkinHouse
    } else if value == 200 { OldLicensee::Koei
    } else if value == 201 { OldLicensee::UFL
    } else if value == 202 { OldLicensee::UltraGames
    } else if value == 203 { OldLicensee::VAPInc
    } else if value == 204 { OldLicensee::UseCorporation
    } else if value == 205 { OldLicensee::Meldac
    } else if value == 209 { OldLicensee::SOFEL
    } else if value == 210 { OldLicensee::Quest
    } else if value == 211 { OldLicensee::SigmaEnterprises
    } else if value == 212 { OldLicensee::ASKKodansha
    } else if value == 215 { OldLicensee::CopyaSystem
    } else if value == 218 { OldLicensee::Tomy
    } else if value == 221 { OldLicensee::NipponComputerSystems
    } else if value == 222 { OldLicensee::HumanEnt
    } else if value == 223 { OldLicensee::Altron
    } else if value == 225 { OldLicensee::TowaChiki
    } else if value == 226 { OldLicensee::Yutaka
    } else if value == 229 { OldLicensee::Epoch
    } else if value == 231 { OldLicensee::Athena
    } else if value == 232 { OldLicensee::AsmikAceEntertainment
    } else if value == 233 { OldLicensee::Natsume
    } else if value == 234 { OldLicensee::KingRecords
    } else if value == 236 { OldLicensee::EpicSonyRecords
    } else if value == 238 { OldLicensee::IGS
    } else if value == 240 { OldLicensee::AWave
    } else if value == 243 { OldLicensee::ExtremeEntertainment
    } else { OldLicensee::Unknown }
}

impl NewLicensee {
    /// Decode a two-character ASCII licensee code; anything that is
    /// not exactly two bytes long reads as unknown.
    pub fn from_ascii_code(code: &str) -> (r: Self)
        ensures
            r == (if code.spec_bytes().len() == 2 {
                new_licensee_of(code.spec_bytes()[0], code.spec_bytes()[1])
            } else {
                NewLicensee::Unknown
            }),
    {
        let bytes = code.as_bytes();
        if bytes.len() == 2 {
            Self::from_bytes_pair(*vstd::slice::slice_index_get(bytes, 0),
                *vstd::slice::slice_index_get(bytes, 1))
        } else {
            NewLicensee::Unknown
        }
    }

    /// Decode the two licensee bytes read from a header.
    pub fn from_bytes(bytes: &[u8; 2]) -> (r: Self)
        ensures
            r == new_licensee_of(bytes[0], bytes[1]),
    {
        Self::from_bytes_pair(bytes[0], bytes[1])
    }

    /// Decode a licensee code given as its two bytes.
    pub(crate) fn from_bytes_pair(b0: u8, b1: u8) -> (r: Self)
        ensures
            r == new_licensee_of(b0, b1),
    {
        if b0 == 48 && b1 == 48 { NewLicensee::NoPublisher
        } else if b0 == 48 && b1 == 49 { NewLicensee::NintendoRD1
        } else if b0 == 48 && b1 == 56 { NewLicensee::Capcom
        } else if b0 == 49 && b1 == 51 { NewLicensee::ElectronicArts
        } else if b0 == 54 && b1 == 57 { NewLicensee::ElectronicArts
        } else if b0 == 49 && b1 == 56 { NewLicensee::HudsonSoft
        } else if b0 == 51 && b1 == 56 { NewLicensee::HudsonSoft
        } else if b0 == 49 && b1 == 57 { NewLicensee::BAI
        } else if b0 == 50 && b1 == 48 { NewLicensee::KSS
        } else if b0 == 50 && b1 == 50 { NewLicensee::PlanningOfficeWADA
        } else if b0 == 50 && b1 == 52 { NewLicensee::PCMComplete
        } else if b0 == 50 && b1 == 53 { NewLicensee::SanX
        } else if b0 == 50 && b1 == 56 { NewLicensee::Kemco
        } else if b0 == 50 && b1 == 57 { NewLicensee::SETACorporation
        } else if b0 == 51 && b1 == 48 { NewLicensee::Viacom
        } else if b0 == 51 && b1 == 49 { NewLicensee::Nintendo
        } else if b0 == 51 && b1 == 50 { NewLicensee::Bandai
        } else if b0 == 51 && b1 == 51 { NewLicensee::OceanSoftwareAcclaim
        } else if b0 == 54 && b1 == 55 { NewLicensee::OceanSoftwareAcclaim
        } else if b0 == 57 && b1 == 51 { NewLicensee::OceanSoftwareAcclaim
        } else if b0 == 51 && b1 == 52 { NewLicensee::Konami
        } else if b0 == 53 && b1 == 52 { NewLicensee::Konami
        } else if b0 == 65 && b1 == 52 { NewLicensee::Konami
        } else if b0 == 51 && b1 == 53 { NewLicensee::HectorSoft
        } else if b0 == 51 && b1 == 55 { NewLicensee::Taito
        } else if b0 == 51 && b1 == 57 { NewLicensee::Banpresto
        } else if b0 == 52 && b1 == 49 { NewLicensee::UbiSoft
        } else if b0 == 52 && b1 == 50 { NewLicensee::Atlus
        } else if b0 == 52 && b1 == 52 { NewLicensee::MalibuInteractive
        } else if b0 == 52 && b1 == 54 { NewLicensee::Angel
        } else if b0 == 52 && b1 == 55 { NewLicensee::BulletProofSoftware
        } else if b0 == 52 && b1 == 57 { NewLicensee::Irem
        } else if b0 == 53 && b1 == 48 { NewLicensee::Absolute
        } else if b0 == 53 && b1 == 49 { NewLicensee::AcclaimEntertainment
        } else if b0 == 53 && b1 == 50 { NewLicensee::Activision
        } else if b0 == 53 && b1 == 51 { NewLicensee::SammyUSACorporation
        } else if b0 == 53 && b1 == 53 { NewLicensee::HiTechExpressions
        } else if b0 == 53 && b1 == 54 { NewLicensee::LJN
        } else if b0 == 53 && b1 == 55 { NewLicensee::Matchbox
        } else if b0 == 53 && b1 == 56 { NewLicensee::Mattel
        } else if b0 == 53 && b1 == 57 { NewLicensee::MiltonBradleyCompany
        } else if b0 == 54 && b1 == 48 { NewLicensee::TitusInteractive
        } else if b0 == 54 && b1 == 49 { NewLicensee::VirginGames
        } else if b0 == 54 && b1 == 52 { NewLicensee::LucasfilmGames
        } else if b0 == 55 && b1 == 48 { NewLicensee::Infogrames
        } else if b0 == 55 && b1 == 49 { NewLicensee::InterplayEntertainment
        } else if b0 == 55 && b1 == 50 { NewLicensee::Broderbund
        } else if b0 == 55 && b1 == 51 { NewLicensee::SculpturedSoftware
        } else if b0 == 55 && b1 == 53 { NewLicensee::TheSalesCurveLimited
        } else if b0 == 55 && b1 == 56 { NewLicensee::THQ
        } else if b0 == 55 && b1 == 57 { NewLicensee::Accolade
        } else if b0 == 56 && b1 == 48 { NewLicensee::MisawaEntertainment
        } else if b0 == 56 && b1 == 51 { NewLicensee::Lozc
        } else if b0 == 56 && b1 == 54 { NewLicensee::TokumaShoten
        } else if b0 == 56 && b1 == 55 { NewLicensee::TsukudaOriginal
        } else if b0 == 57 && b1 == 49 { NewLicensee::ChunsoftCo
        } else if b0 == 57 && b1 == 50 { NewLicensee::VideoSystem
        } else if b0 == 57 && b1 == 53 { NewLicensee::Varie
        } else if b0 == 57 && b1 == 54 { NewLicensee::YonezawaSpal
        } else if b0 == 57 && b1 == 55 { NewLicensee::Kaneko
        } else if b0 == 57 && b1 == 57 { NewLicensee::PackInVideo
        } else if b0 == 57 && b1 == 72 { NewLicensee::BottomUp
        } else if b0 == 66 && b1 == 76 { NewLicensee::MTO
        } else if b0 == 68 && b1 == 75 { NewLicensee::Kodansha
        } else { NewLicensee::Unknown }
    }
}

impl OldLicensee {
    /// Decode the old-licensee byte.
    pub fn from_byte(value: u8) -> (r: Self)
        ensures
            r == old_licensee_of(value),
    {
        if value == 0 { OldLicensee::NoPublisher
        } else if value == 1 { OldLicensee::Nintendo
        } else if value == 49 { OldLicensee::Nintendo
        } else if value == 8 { OldLicensee::Capcom
        } else if value == 56 { OldLicensee::Capcom
        } else if value == 9 { OldLicensee::HOTB
        } else if value == 10 { OldLicensee::Jaleco
        } else if value == 224 { OldLicensee::Jaleco
        } else if value == 11 { OldLicensee::CoconutsJapan
        } else if value == 12 { OldLicensee::EliteSystems
        } else if value == 110 { OldLicensee::EliteSystems
        } else if value == 19 { OldLicensee::ElectronicArts
        } else if value == 105 { OldLicensee::ElectronicArts
        } else if value == 24 { OldLicensee::HudsonSoft
        } else if value == 25 { OldLicensee::ITCEntertainment
        } else if value == 26 { OldLicensee::Yanoman
        } else if value == 29 { OldLicensee::JapanClary
        } else if value == 31 { OldLicensee::VirginGames
        } else if value == 74 { OldLicensee::VirginGames
        } else if value == 97 { OldLicensee::VirginGames
        } else if value == 36 { OldLicensee::PCMComplete
        } else if value == 37 { OldLicensee::SanX
        } else if value == 40 { OldLicensee::Kemco
        } else if value == 127 { OldLicensee::Kemco
        } else if value == 151 { OldLicensee::Kemco
        } else if value == 194 { OldLicensee::Kemco
        } else if value == 41 { OldLicensee::SETACorporation
        } else if value == 48 { OldLicensee::Infogrames
        } else if value == 112 { OldLicensee::Infogrames
        } else if value == 50 { OldLicensee::Bandai
        } else if value == 162 { OldLicensee::Bandai
        } else if value == 178 { OldLicensee::Bandai
        } else if value == 51 { OldLicensee::UseNewLicenseeCode
        } else if value == 52 { OldLicensee::Konami
        } else if value == 164 { OldLicensee::Konami
        } else if value == 53 { OldLicensee::HectorSoft
        } else if value == 57 { OldLicensee::Banpresto
        } else if value == 157 { OldLicensee::Banpresto
        } else if value == 217 { OldLicensee::Banpresto
        } else if value == 60 { OldLicensee::EntertainmentInteractive
        } else if value == 62 { OldLicensee::Gremlin
        } else if value == 65 { OldLicensee::UbiSoft
        } else if value == 66 { OldLicensee::Atlus
        } else if value == 235 { OldLicensee::Atlus
        } else if value == 68 { OldLicensee::MalibuInteractive
        } else if value == 77 { OldLicensee::MalibuInteractive
        } else if value == 70 { OldLicensee::Angel
        } else if value == 207 { OldLicensee::Angel
        } else if value == 71 { OldLicensee::SpectrumHoloByte
        } else if value == 73 { OldLicensee::Irem
        } else if value == 79 { OldLicensee::USGold
        } else if value == 80 { OldLicensee::Absolute
        } else if value == 81 { OldLicensee::AcclaimEntertainment
        } else if value == 176 { OldLicensee::AcclaimEntertainment
        } else if value == 82 { OldLicensee::Activision
        } else if value == 83 { OldLicensee::SammyUSACorporation
        } else if value == 84 { OldLicensee::GameTek
        } else if value == 85 { OldLicensee::ParkPlace
        } else if value == 86 { OldLicensee::LJN
        } else if value == 219 { OldLicensee::LJN
        } else if value == 255 { OldLicensee::LJN
        } else if value == 87 { OldLicensee::Matchbox
        } else if value == 89 { OldLicensee::MiltonBradleyCompany
        } else if value == 90 { OldLicensee::Mindscape
        } else if value == 91 { OldLicensee::Romstar
        } else if value == 92 { OldLicensee::NaxatSoft
        } else if value == 214 { OldLicensee::NaxatSoft
        } else if value == 93 { OldLicensee::Tradewest
        } else if value == 96 { OldLicensee::TitusInteractive
        } else if value == 103 { OldLicensee::OceanSoftware
        } else if value == 111 { OldLicensee::ElectroBrain
        } else if value == 113 { OldLicensee::InterplayEntertainment
        } else if value == 114 { OldLicensee::Broderbund
        } else if value == 170 { OldLicensee::Broderbund
        } else if value == 115 { OldLicensee::SculpturedSoftware
        } else if value == 117 { OldLicensee::TheSalesCurveLimited
        } else if value == 120 { OldLicensee::THQ
        } else if value == 121 { OldLicensee::Accolade
        } else if value == 122 { OldLicensee::TriffixEntertainment
        } else if value == 124 { OldLicensee::MicroProse
        } else if value == 128 { OldLicensee::MisawaEntertainment
        } else if value == 131 { OldLicensee::LOZCG
        } else if value == 134 { OldLicensee::TokumaShoten
        } else if value == 196 { OldLicensee::TokumaShoten
        } else if value == 139 { OldLicensee::BulletProofSoftware
        } else if value == 140 { OldLicensee::VicTokaiCorp
        } else if value == 142 { OldLicensee::ApeInc
        } else if value == 143 { OldLicensee::IMax
        } else if value == 145 { OldLicensee::ChunsoftCo
        } else if value == 146 { OldLicensee::VideoSystem
        } else if value == 147 { OldLicensee::TsubarayaProductions
        } else if value == 149 { OldLicensee::Varie
        } else if value == 227 { OldLicensee::Varie
        } else if value == 150 { OldLicensee::Yonezawa
        } else if value == 153 { OldLicensee::Arc
        } else if value == 154 { OldLicensee::NihonBussan
        } else if value == 155 { OldLicensee::Tecmo
        } else if value == 156 { OldLicensee::Imagineer
        } else if value == 159 { OldLicensee::Nova
        } else if value == 161 { OldLicensee::HoriElectric
        } else if value == 166 { OldLicensee::Kawada
        } else if value == 167 { OldLicensee::Takara
        } else if value == 169 { OldLicensee::TechnosJapan
        } else if value == 172 { OldLicensee::ToeiAnimation
        } else if value == 173 { OldLicensee::Toho
        } else if value == 175 { OldLicensee::Namco
        } else if value == 177 { OldLicensee::ASCIICorporation
        } else if value == 180 { OldLicensee::SquareEnix
        } else if value == 182 { OldLicensee::HALLaboratory
        } else if value == 183 { OldLicensee::SNK
        } else if value == 185 { OldLicensee::PonyCanyon
        } else if value == 206 { OldLicensee::PonyCanyon
        } else if value == 186 { OldLicensee::CultureBrain
        } else if value == 187 { OldLicensee::Sunsoft
        } else if value == 189 { OldLicensee::SonyImagesoft
        } else if value == 191 { OldLicensee::SammyCorporation
        } else if value == 192 { OldLicensee::Taito
        } else if value == 208 { OldLicensee::Taito
        } else if value == 195 { OldLicensee::Square
        } else if value == 197 { OldLicensee::DataEast
        } else if value == 198 { OldLicensee::TonkinHouse
        } else if value == 200 { OldLicensee::Koei
        } else if value == 201 { OldLicensee::UFL
        } else if value == 202 { OldLicensee::UltraGames
        } else if value == 203 { OldLicensee::VAPInc
        } else if value == 204 { OldLicensee::UseCorporation
        } else if value == 205 { OldLicensee::Meldac
        } else if value == 209 { OldLicensee::SOFEL
        } else if value == 210 { OldLicensee::Quest
        } else if value == 211 { OldLicensee::SigmaEnterprises
        } else if value == 212 { OldLicensee::ASKKodansha
        } else if value == 215 { OldLicensee::CopyaSystem
        } else if value == 218 { OldLicensee::Tomy
        } else if value == 221 { OldLicensee::NipponComputerSystems
        } else if value == 222 { OldLicensee::HumanEnt
        } else if value == 223 { OldLicensee::Altron
        } else if value == 225 { OldLicensee::TowaChiki
        } else if value == 226 { OldLicensee::Yutaka
        } else if value == 229 { OldLicensee::Epoch
        } else if value == 231 { OldLicensee::Athena
        } else if value == 232 { OldLicensee::AsmikAceEntertainment
        } else if value == 233 { OldLicensee::Natsume
        } else if value == 234 { OldLicensee::KingRecords
        } else if value == 236 { OldLicensee::EpicSonyRecords
        } else if value == 238 { OldLicensee::IGS
        } else if value == 240 { OldLicensee::AWave
        } else if value == 243 { OldLicensee::ExtremeEntertainment
        } else { OldLicensee::Unknown }
    }
}

/// Market the cartridge was built for, from the byte at 0x014A.
#[derive(Clone, Copy, Debug, PartialEq, Eq, Structural)]
pub enum Destination {
    Japan,
    RestOfWorld,
    Undefined,
}

/// The destination named by the header byte at 0x014A.
pub open spec fn destination_of(b: u8) -> Destination {
    if b == 0x00 { Destination::Japan }
    else if b == 0x01 { Destination::RestOfWorld }
    else { Destination::Undefined }
}

/// The decoded cartridge header.
#[derive(Debug)]
pub struct CartridgeHeader {
    /// ASCII title bytes from 0x0134–0x0142.
    pub title: Vec<u8>,
    /// Manufacturer code bytes from 0x013F–0x0142.
    pub manufacturer_code: Vec<u8>,
    pub new_licensee: NewLicensee,
    pub sgb_flag: bool,
    pub mbc: crate::mbc::MBC,
    pub destination: Destination,
    pub old_licensee: OldLicensee,
    pub version_number: u8,
}

impl GameBoy {
    /// A copy of cartridge bytes `start .. end`.
    fn cart_slice(&self, start: usize, end: usize) -> (v: Vec<u8>)
        requires
            start <= end,
            end <= self.memory.cartridge@.len(),
        ensures
            v@ == self.memory.cartridge@.subrange(start as int, end as int),
    {
        let mut v: Vec<u8> = Vec::new();
        let mut i: usize = start;
        while i < end
            invariant
                start <= i <= end,
                end <= self.memory.cartridge@.len(),
                v@ == self.memory.cartridge@.subrange(start as int, i as int),
            decreases end - i,
        {
            let b = self.memory.cartridge[i];
            v.push(b);
            proof {
                vstd::seq_lib::assert_seqs_equal!(
                    v@,
                    self.memory.cartridge@.subrange(start as int, i + 1)
                );
            }
            i = i + 1;
        }
        v
    }

    /// Decode the cartridge header: the bank-controller descriptor
    /// (allocating its external RAM), the title and manufacturer
    /// bytes, the licensee codes, and the flag fields.  A malformed
    /// header is rejected with the descriptor's error.
    pub fn decode_cart_header(&mut self) -> (r: Result<CartridgeHeader, crate::mbc::CartError>)
        ensures
            r is Err <==> crate::mbc::detect_mbc_result(*old(self)) is Err,
            r matches Err(e) ==> Err::<crate::mbc::MBC, _>(e) == crate::mbc::detect_mbc_result(*old(self))
                && *final(self) == *old(self),
            r matches Ok(h) ==> {
                let cart = old(self).memory.cartridge@;
                &&& Ok::<_, crate::mbc::CartError>(h.mbc) == crate::mbc::detect_mbc_result(*old(self))
                &&& h.title@ == cart.subrange(0x134, 0x143)
                &&& h.manufacturer_code@ == cart.subrange(0x13F, 0x143)
                &&& h.new_licensee == new_licensee_of(cart[0x144], cart[0x145])
                &&& h.sgb_flag == (cart[0x146] == 0x03)
                &&& h.destination == destination_of(cart[0x14A])
                &&& h.old_licensee == old_licensee_of(cart[0x14B])
                &&& h.version_number == cart[0x14C]
            },
            *final(self) == (GameBoy { memory: final(self).memory, ..*old(self) }),
            final(self).memory == (crate::memory::MappedRAM {
                switchable_ram: final(self).memory.switchable_ram,
                ..old(self).memory
            }),
    {
        let mbc = match self.detect_mbc() {
            Ok(m) => m,
            Err(e) => {
                return Err(e);
            },
        };
        let title = self.cart_slice(0x134, 0x143);
        let manufacturer_code = self.cart_slice(0x13F, 0x143);
        let new_licensee = NewLicensee::from_bytes_pair(
            self.memory.cartridge[0x144],
            self.memory.cartridge[0x145],
        );
        let sgb_flag = self.memory.cartridge[0x146] == 0x03;
        let destination = match self.memory.cartridge[0x14A] {
            0x00 => Destination::Japan,
            0x01 => Destination::RestOfWorld,
            _ => Destination::Undefined,
        };
        let old_licensee = OldLicensee::from_byte(self.memory.cartridge[0x14B]);
        let version_number = self.memory.cartridge[0x14C];

        Ok(CartridgeHeader {
            title,
            manufacturer_code,
            new_licensee,
            sgb_flag,
            mbc,
            destination,
            old_licensee,
            version_number,
        })
    }
}

} // verus!

