//! Display names of the job sprites, stored as Windows-1252 bytes (the
//! code page of the game archives) and decoded with the `encoding` crate.
use vstd::prelude::*;
use encoding::types::Encoding;
use encoding::DecoderTrap;

verus! {

/// The job sprites that have a display name.
#[derive(Clone, Copy, Debug, PartialEq, Eq, Structural, Hash)]
#[allow(non_camel_case_types)]
pub enum JobSpriteId {
    NOVICE,
    SWORDMAN,
    MAGICIAN,
    ARCHER,
    ACOLYTE,
    MERCHANT,
    THIEF,
    KNIGHT,
    PRIEST,
    WIZARD,
    BLACKSMITH,
    HUNTER,
    ASSASSIN,
    KNIGHT2,
    CRUSADER,
    MONK,
    SAGE,
    ROGUE,
    ALCHEMIST,
    BARD,
    DANCER,
    CRUSADER2,
    SUPERNOVICE,
    GUNSLINGER,
    NINJA,
    TAEKWON,
    STAR,
    STAR2,
    LINKER,
    MARRIED,
    XMAS,
    SUMMER,
    KnightH,
    PriestH,
    WizardH,
    BlacksmithH,
    HunterH,
    AssassinH,
    Knight2H,
    CrusaderH,
    MonkH,
    SageH,
    RogueH,
    AlchemistH,
    BardH,
    DancerH,
    Crusader2H,
    RuneKnight,
    WARLOCK,
    RANGER,
    ARCHBISHOP,
    MECHANIC,
    GuillotineCross,
    RoyalGuard,
    SORCERER,
    MINSTREL,
    WANDERER,
    SURA,
    GENETIC,
    ShadowChaser,
    RuneKnight2,
    RoyalGuard2,
    RANGER2,
    MECHANIC2,
}

/// The job sprites a player can pick.
pub const PLAYABLE_CHAR_SPRITES: [JobSpriteId; 13] = [
    JobSpriteId::CRUSADER,
    JobSpriteId::SWORDMAN,
    JobSpriteId::ARCHER,
    JobSpriteId::ASSASSIN,
    JobSpriteId::ROGUE,
    JobSpriteId::KNIGHT,
    JobSpriteId::WIZARD,
    JobSpriteId::SAGE,
    JobSpriteId::ALCHEMIST,
    JobSpriteId::BLACKSMITH,
    JobSpriteId::PRIEST,
    JobSpriteId::MONK,
    JobSpriteId::GUNSLINGER,
];

/// The character a Windows-1252 byte stands for: the byte's own code,
/// except in 0x80..0x9F, where the encoding's table applies.
pub open spec fn windows_1252_char(b: u8) -> char {
    if 0x80 <= b && b < 0xA0 {
        (seq![8364u32, 129u32, 8218u32, 402u32, 8222u32, 8230u32, 8224u32, 8225u32, 710u32, 8240u32, 352u32, 8249u32, 338u32, 141u32, 381u32, 143u32, 144u32, 8216u32, 8217u32, 8220u32, 8221u32, 8226u32, 8211u32, 8212u32, 732u32, 8482u32, 353u32, 8250u32, 339u32, 157u32, 382u32, 376u32][b as int - 0x80]) as char
    } else {
        b as char
    }
}

/// The text that Windows-1252 bytes decode to, one character per byte.
pub open spec fn windows_1252_decoded(bytes: Seq<u8>) -> Seq<char> {
    bytes.map_values(|b: u8| windows_1252_char(b))
}

/// `encoding::all::WINDOWS_1252.decode(bytes, DecoderTrap::Strict)`, its
/// error turned into `None`. The encoding's table maps every byte, so the
/// decoder never fails: each byte below 0x80 becomes the character with its
/// code, each other byte the character its table entry names (the byte's own
/// code from 0xA0 on).
#[verifier::external_body]
fn decode_windows_1252(bytes: &[u8]) -> (r: Option<String>)
    ensures
        r is Some,
        r.unwrap()@ == windows_1252_decoded(bytes@),
{
    encoding::all::WINDOWS_1252.decode(bytes, DecoderTrap::Strict).ok()
}

/// The Windows-1252 bytes of a job's display name.
pub open spec fn spec_job_name_bytes(id: JobSpriteId) -> Seq<u8> {
    match id {
        JobSpriteId::NOVICE => seq![0xC3u8, 0xCAu8, 0xBAu8, 0xB8u8, 0xC0u8, 0xDAu8],
        JobSpriteId::SWORDMAN => seq![0xB0u8, 0xCBu8, 0xBBu8, 0xE7u8],
        JobSpriteId::MAGICIAN => seq![0xB8u8, 0xB6u8, 0xB9u8, 0xDDu8, 0xBBu8, 0xC7u8],
        JobSpriteId::ARCHER => seq![0xB1u8, 0xC3u8, 0xBCu8, 0xF6u8],
        JobSpriteId::ACOLYTE => seq![0xBCu8, 0xBAu8, 0xC1u8, 0xF7u8, 0xC0u8, 0xDAu8],
        JobSpriteId::MERCHANT => seq![0xBBu8, 0xF3u8, 0xC0u8, 0xCEu8],
        JobSpriteId::THIEF => seq![0xB5u8, 0xB5u8, 0xB5u8, 0xCFu8],
        JobSpriteId::KNIGHT => seq![0xB1u8, 0xE2u8, 0xBBu8, 0xE7u8],
        JobSpriteId::PRIEST => seq![0xC7u8, 0xC1u8, 0xB8u8, 0xAEu8, 0xBDu8, 0xBAu8, 0xC6u8, 0xAEu8],
        JobSpriteId::WIZARD => seq![0xC0u8, 0xA7u8, 0xC0u8, 0xFAu8, 0xB5u8, 0xE5u8],
        JobSpriteId::BLACKSMITH => seq![0xC1u8, 0xA6u8, 0xC3u8, 0xB6u8, 0xB0u8, 0xF8u8],
        JobSpriteId::HUNTER => seq![0xC7u8, 0xE5u8, 0xC5u8, 0xCDu8],
        JobSpriteId::ASSASSIN => seq![0xBEu8, 0xEEu8, 0xBCu8, 0xBCu8, 0xBDu8, 0xC5u8],
        JobSpriteId::KNIGHT2 => seq![0xC6u8, 0xE4u8, 0xC4u8, 0xDAu8, 0xC6u8, 0xE4u8, 0xC4u8, 0xDAu8, 0x5Fu8, 0xB1u8, 0xE2u8, 0xBBu8, 0xE7u8],
        JobSpriteId::CRUSADER => seq![0xC5u8, 0xA9u8, 0xB7u8, 0xE7u8, 0xBCu8, 0xBCu8, 0xC0u8, 0xCCu8, 0xB4u8, 0xF5u8],
        JobSpriteId::MONK => seq![0xB8u8, 0xF9u8, 0xC5u8, 0xA9u8],
        JobSpriteId::SAGE => seq![0xBCu8, 0xBCu8, 0xC0u8, 0xCCu8, 0xC1u8, 0xF6u8],
        JobSpriteId::ROGUE => seq![0xB7u8, 0xCEu8, 0xB1u8, 0xD7u8],
        JobSpriteId::ALCHEMIST => seq![0xBFu8, 0xACu8, 0xB1u8, 0xDDu8, 0xBCu8, 0xFAu8, 0xBBu8, 0xE7u8],
        JobSpriteId::BARD => seq![0xB9u8, 0xD9u8, 0xB5u8, 0xE5u8],
        JobSpriteId::DANCER => seq![0xB9u8, 0xABu8, 0xC8u8, 0xF1u8],
        JobSpriteId::CRUSADER2 => seq![0xBDu8, 0xC5u8, 0xC6u8, 0xE4u8, 0xC4u8, 0xDAu8, 0xC5u8, 0xA9u8, 0xB7u8, 0xE7u8, 0xBCu8, 0xBCu8, 0xC0u8, 0xCCu8, 0xB4u8, 0xF5u8],
        JobSpriteId::SUPERNOVICE => seq![0xBDu8, 0xB4u8, 0xC6u8, 0xDBu8, 0xB3u8, 0xEBu8, 0xBAu8, 0xF1u8, 0xBDu8, 0xBAu8],
        JobSpriteId::GUNSLINGER => seq![0xB0u8, 0xC7u8, 0xB3u8, 0xCAu8],
        JobSpriteId::NINJA => seq![0xB4u8, 0xD1u8, 0xC0u8, 0xDAu8],
        JobSpriteId::TAEKWON => seq![0xC5u8, 0xC2u8, 0xB1u8, 0xC7u8, 0xBCu8, 0xD2u8, 0xB3u8, 0xE2u8],
        JobSpriteId::STAR => seq![0xB1u8, 0xC7u8, 0xBCu8, 0xBAu8],
        JobSpriteId::STAR2 => seq![0xB1u8, 0xC7u8, 0xBCu8, 0xBAu8, 0xC0u8, 0xB6u8, 0xC7u8, 0xD5u8],
        JobSpriteId::LINKER => seq![0xBCu8, 0xD2u8, 0xBFu8, 0xEFu8, 0xB8u8, 0xB5u8, 0xC4u8, 0xBFu8],
        JobSpriteId::MARRIED => seq![0xB0u8, 0xE1u8, 0xC8u8, 0xA5u8],
        JobSpriteId::XMAS => seq![0xBBu8, 0xEAu8, 0xC5u8, 0xB8u8],
        JobSpriteId::SUMMER => seq![0xBFu8, 0xA9u8, 0xB8u8, 0xA7u8],
        JobSpriteId::KnightH => seq![0xB7u8, 0xCEu8, 0xB5u8, 0xE5u8, 0xB3u8, 0xAAu8, 0xC0u8, 0xCCu8, 0xC6u8, 0xAEu8],
        JobSpriteId::PriestH => seq![0xC7u8, 0xCFu8, 0xC0u8, 0xCCu8, 0xC7u8, 0xC1u8, 0xB8u8, 0xAEu8],
        JobSpriteId::WizardH => seq![0xC7u8, 0xCFu8, 0xC0u8, 0xCCu8, 0xC0u8, 0xA7u8, 0xC0u8, 0xFAu8, 0xB5u8, 0xE5u8],
        JobSpriteId::BlacksmithH => seq![0xC8u8, 0xADu8, 0xC0u8, 0xCCu8, 0xC6u8, 0xAEu8, 0xBDu8, 0xBAu8, 0xB9u8, 0xCCu8, 0xBDu8, 0xBAu8],
        JobSpriteId::HunterH => seq![0xBDu8, 0xBAu8, 0xB3u8, 0xAAu8, 0xC0u8, 0xCCu8, 0xC6u8, 0xDBu8],
        JobSpriteId::AssassinH => seq![0xBEu8, 0xEEu8, 0xBDu8, 0xD8u8, 0xBDu8, 0xC5u8, 0xC5u8, 0xA9u8, 0xB7u8, 0xCEu8, 0xBDu8, 0xBAu8],
        JobSpriteId::Knight2H => seq![0xB7u8, 0xCEu8, 0xB5u8, 0xE5u8, 0xC6u8, 0xE4u8, 0xC4u8, 0xDAu8],
        JobSpriteId::CrusaderH => seq![0xC6u8, 0xC8u8, 0xB6u8, 0xF3u8, 0xB5u8, 0xF2u8],
        JobSpriteId::MonkH => seq![0xC3u8, 0xA8u8, 0xC7u8, 0xC7u8, 0xBFu8, 0xC2u8],
        JobSpriteId::SageH => seq![0xC7u8, 0xC1u8, 0xB7u8, 0xCEu8, 0xC6u8, 0xE4u8, 0xBCu8, 0xADu8],
        JobSpriteId::RogueH => seq![0xBDu8, 0xBAu8, 0xC5u8, 0xE4u8, 0xC4u8, 0xBFu8],
        JobSpriteId::AlchemistH => seq![0xC5u8, 0xA9u8, 0xB8u8, 0xAEu8, 0xBFu8, 0xA1u8, 0xC0u8, 0xCCu8, 0xC5u8, 0xCDu8],
        JobSpriteId::BardH => seq![0xC5u8, 0xACu8, 0xB6u8, 0xF3u8, 0xBFu8, 0xEEu8],
        JobSpriteId::DancerH => seq![0xC1u8, 0xFDu8, 0xBDu8, 0xC3u8],
        JobSpriteId::Crusader2H => seq![0xC6u8, 0xE4u8, 0xC4u8, 0xDAu8, 0xC6u8, 0xC8u8, 0xB6u8, 0xF3u8, 0xB5u8, 0xF2u8],
        JobSpriteId::RuneKnight => seq![0xB7u8, 0xE9u8, 0xB3u8, 0xAAu8, 0xC0u8, 0xCCu8, 0xC6u8, 0xAEu8],
        JobSpriteId::WARLOCK => seq![0xBFu8, 0xF6u8, 0xB7u8, 0xCFu8],
        JobSpriteId::RANGER => seq![0xB7u8, 0xB9u8, 0xC0u8, 0xCEu8, 0xC1u8, 0xAEu8],
        JobSpriteId::ARCHBISHOP => seq![0xBEu8, 0xC6u8, 0xC5u8, 0xA9u8, 0xBAu8, 0xF1u8, 0xBCu8, 0xF3u8],
        JobSpriteId::MECHANIC => seq![0xB9u8, 0xCCu8, 0xC4u8, 0xC9u8, 0xB4u8, 0xD0u8],
        JobSpriteId::GuillotineCross => seq![0xB1u8, 0xE6u8, 0xB7u8, 0xCEu8, 0xC6u8, 0xBEu8, 0xC5u8, 0xA9u8, 0xB7u8, 0xCEu8, 0xBDu8, 0xBAu8],
        JobSpriteId::RoyalGuard => seq![0xB0u8, 0xA1u8, 0xB5u8, 0xE5u8],
        JobSpriteId::SORCERER => seq![0xBCu8, 0xD2u8, 0xBCu8, 0xADu8, 0xB7u8, 0xAFu8],
        JobSpriteId::MINSTREL => seq![0xB9u8, 0xCEu8, 0xBDu8, 0xBAu8, 0xC6u8, 0xAEu8, 0xB7u8, 0xB2u8],
        JobSpriteId::WANDERER => seq![0xBFu8, 0xF8u8, 0xB4u8, 0xF5u8, 0xB7u8, 0xAFu8],
        JobSpriteId::SURA => seq![0xBDu8, 0xB4u8, 0xB6u8, 0xF3u8],
        JobSpriteId::GENETIC => seq![0xC1u8, 0xA6u8, 0xB3u8, 0xD7u8, 0xB8u8, 0xAFu8],
        JobSpriteId::ShadowChaser => seq![0xBDu8, 0xA6u8, 0xB5u8, 0xB5u8, 0xBFu8, 0xECu8, 0xC3u8, 0xBCu8, 0xC0u8, 0xCCu8, 0xBCu8, 0xADu8],
        JobSpriteId::RuneKnight2 => seq![0xB7u8, 0xE9u8, 0xB3u8, 0xAAu8, 0xC0u8, 0xCCu8, 0xC6u8, 0xAEu8, 0xBBu8, 0xDAu8, 0xB6u8, 0xECu8],
        JobSpriteId::RoyalGuard2 => seq![0xB1u8, 0xD7u8, 0xB8u8, 0xAEu8, 0xC6u8, 0xF9u8, 0xB0u8, 0xA1u8, 0xB5u8, 0xE5u8],
        JobSpriteId::RANGER2 => seq![0xB7u8, 0xB9u8, 0xC0u8, 0xCEu8, 0xC1u8, 0xAEu8, 0xB4u8, 0xC1u8, 0xB4u8, 0xEBu8],
        JobSpriteId::MECHANIC2 => seq![0xB8u8, 0xB6u8, 0xB5u8, 0xB5u8, 0xB1u8, 0xE2u8, 0xBEu8, 0xEEu8],
    }
}

/// The Windows-1252 bytes of a job's display name.
pub fn job_name_bytes(id: JobSpriteId) -> (r: &'static [u8])
    ensures
        r@ == spec_job_name_bytes(id),
{
    match id {
        JobSpriteId::NOVICE => &[0xC3, 0xCA, 0xBA, 0xB8, 0xC0, 0xDA],
        JobSpriteId::SWORDMAN => &[0xB0, 0xCB, 0xBB, 0xE7],
        JobSpriteId::MAGICIAN => &[0xB8, 0xB6, 0xB9, 0xDD, 0xBB, 0xC7],
        JobSpriteId::ARCHER => &[0xB1, 0xC3, 0xBC, 0xF6],
        JobSpriteId::ACOLYTE => &[0xBC, 0xBA, 0xC1, 0xF7, 0xC0, 0xDA],
        JobSpriteId::MERCHANT => &[0xBB, 0xF3, 0xC0, 0xCE],
        JobSpriteId::THIEF => &[0xB5, 0xB5, 0xB5, 0xCF],
        JobSpriteId::KNIGHT => &[0xB1, 0xE2, 0xBB, 0xE7],
        JobSpriteId::PRIEST => &[0xC7, 0xC1, 0xB8, 0xAE, 0xBD, 0xBA, 0xC6, 0xAE],
        JobSpriteId::WIZARD => &[0xC0, 0xA7, 0xC0, 0xFA, 0xB5, 0xE5],
        JobSpriteId::BLACKSMITH => &[0xC1, 0xA6, 0xC3, 0xB6, 0xB0, 0xF8],
        JobSpriteId::HUNTER => &[0xC7, 0xE5, 0xC5, 0xCD],
        JobSpriteId::ASSASSIN => &[0xBE, 0xEE, 0xBC, 0xBC, 0xBD, 0xC5],
        JobSpriteId::KNIGHT2 => &[0xC6, 0xE4, 0xC4, 0xDA, 0xC6, 0xE4, 0xC4, 0xDA, 0x5F, 0xB1, 0xE2, 0xBB, 0xE7],
        JobSpriteId::CRUSADER => &[0xC5, 0xA9, 0xB7, 0xE7, 0xBC, 0xBC, 0xC0, 0xCC, 0xB4, 0xF5],
        JobSpriteId::MONK => &[0xB8, 0xF9, 0xC5, 0xA9],
        JobSpriteId::SAGE => &[0xBC, 0xBC, 0xC0, 0xCC, 0xC1, 0xF6],
        JobSpriteId::ROGUE => &[0xB7, 0xCE, 0xB1, 0xD7],
        JobSpriteId::ALCHEMIST => &[0xBF, 0xAC, 0xB1, 0xDD, 0xBC, 0xFA, 0xBB, 0xE7],
        JobSpriteId::BARD => &[0xB9, 0xD9, 0xB5, 0xE5],
        JobSpriteId::DANCER => &[0xB9, 0xAB, 0xC8, 0xF1],
        JobSpriteId::CRUSADER2 => &[0xBD, 0xC5, 0xC6, 0xE4, 0xC4, 0xDA, 0xC5, 0xA9, 0xB7, 0xE7, 0xBC, 0xBC, 0xC0, 0xCC, 0xB4, 0xF5],
        JobSpriteId::SUPERNOVICE => &[0xBD, 0xB4, 0xC6, 0xDB, 0xB3, 0xEB, 0xBA, 0xF1, 0xBD, 0xBA],
        JobSpriteId::GUNSLINGER => &[0xB0, 0xC7, 0xB3, 0xCA],
        JobSpriteId::NINJA => &[0xB4, 0xD1, 0xC0, 0xDA],
        JobSpriteId::TAEKWON => &[0xC5, 0xC2, 0xB1, 0xC7, 0xBC, 0xD2, 0xB3, 0xE2],
        JobSpriteId::STAR => &[0xB1, 0xC7, 0xBC, 0xBA],
        JobSpriteId::STAR2 => &[0xB1, 0xC7, 0xBC, 0xBA, 0xC0, 0xB6, 0xC7, 0xD5],
        JobSpriteId::LINKER => &[0xBC, 0xD2, 0xBF, 0xEF, 0xB8, 0xB5, 0xC4, 0xBF],
        JobSpriteId::MARRIED => &[0xB0, 0xE1, 0xC8, 0xA5],
        JobSpriteId::XMAS => &[0xBB, 0xEA, 0xC5, 0xB8],
        JobSpriteId::SUMMER => &[0xBF, 0xA9, 0xB8, 0xA7],
        JobSpriteId::KnightH => &[0xB7, 0xCE, 0xB5, 0xE5, 0xB3, 0xAA, 0xC0, 0xCC, 0xC6, 0xAE],
        JobSpriteId::PriestH => &[0xC7, 0xCF, 0xC0, 0xCC, 0xC7, 0xC1, 0xB8, 0xAE],
        JobSpriteId::WizardH => &[0xC7, 0xCF, 0xC0, 0xCC, 0xC0, 0xA7, 0xC0, 0xFA, 0xB5, 0xE5],
        JobSpriteId::BlacksmithH => &[0xC8, 0xAD, 0xC0, 0xCC, 0xC6, 0xAE, 0xBD, 0xBA, 0xB9, 0xCC, 0xBD, 0xBA],
        JobSpriteId::HunterH => &[0xBD, 0xBA, 0xB3, 0xAA, 0xC0, 0xCC, 0xC6, 0xDB],
        JobSpriteId::AssassinH => &[0xBE, 0xEE, 0xBD, 0xD8, 0xBD, 0xC5, 0xC5, 0xA9, 0xB7, 0xCE, 0xBD, 0xBA],
        JobSpriteId::Knight2H => &[0xB7, 0xCE, 0xB5, 0xE5, 0xC6, 0xE4, 0xC4, 0xDA],
        JobSpriteId::CrusaderH => &[0xC6, 0xC8, 0xB6, 0xF3, 0xB5, 0xF2],
        JobSpriteId::MonkH => &[0xC3, 0xA8, 0xC7, 0xC7, 0xBF, 0xC2],
        JobSpriteId::SageH => &[0xC7, 0xC1, 0xB7, 0xCE, 0xC6, 0xE4, 0xBC, 0xAD],
        JobSpriteId::RogueH => &[0xBD, 0xBA, 0xC5, 0xE4, 0xC4, 0xBF],
        JobSpriteId::AlchemistH => &[0xC5, 0xA9, 0xB8, 0xAE, 0xBF, 0xA1, 0xC0, 0xCC, 0xC5, 0xCD],
        JobSpriteId::BardH => &[0xC5, 0xAC, 0xB6, 0xF3, 0xBF, 0xEE],
        JobSpriteId::DancerH => &[0xC1, 0xFD, 0xBD, 0xC3],
        JobSpriteId::Crusader2H => &[0xC6, 0xE4, 0xC4, 0xDA, 0xC6, 0xC8, 0xB6, 0xF3, 0xB5, 0xF2],
        JobSpriteId::RuneKnight => &[0xB7, 0xE9, 0xB3, 0xAA, 0xC0, 0xCC, 0xC6, 0xAE],
        JobSpriteId::WARLOCK => &[0xBF, 0xF6, 0xB7, 0xCF],
        JobSpriteId::RANGER => &[0xB7, 0xB9, 0xC0, 0xCE, 0xC1, 0xAE],
        JobSpriteId::ARCHBISHOP => &[0xBE, 0xC6, 0xC5, 0xA9, 0xBA, 0xF1, 0xBC, 0xF3],
        JobSpriteId::MECHANIC => &[0xB9, 0xCC, 0xC4, 0xC9, 0xB4, 0xD0],
        JobSpriteId::GuillotineCross => &[0xB1, 0xE6, 0xB7, 0xCE, 0xC6, 0xBE, 0xC5, 0xA9, 0xB7, 0xCE, 0xBD, 0xBA],
        JobSpriteId::RoyalGuard => &[0xB0, 0xA1, 0xB5, 0xE5],
        JobSpriteId::SORCERER => &[0xBC, 0xD2, 0xBC, 0xAD, 0xB7, 0xAF],
        JobSpriteId::MINSTREL => &[0xB9, 0xCE, 0xBD, 0xBA, 0xC6, 0xAE, 0xB7, 0xB2],
        JobSpriteId::WANDERER => &[0xBF, 0xF8, 0xB4, 0xF5, 0xB7, 0xAF],
        JobSpriteId::SURA => &[0xBD, 0xB4, 0xB6, 0xF3],
        JobSpriteId::GENETIC => &[0xC1, 0xA6, 0xB3, 0xD7, 0xB8, 0xAF],
        JobSpriteId::ShadowChaser => &[0xBD, 0xA6, 0xB5, 0xB5, 0xBF, 0xEC, 0xC3, 0xBC, 0xC0, 0xCC, 0xBC, 0xAD],
        JobSpriteId::RuneKnight2 => &[0xB7, 0xE9, 0xB3, 0xAA, 0xC0, 0xCC, 0xC6, 0xAE, 0xBB, 0xDA, 0xB6, 0xEC],
        JobSpriteId::RoyalGuard2 => &[0xB1, 0xD7, 0xB8, 0xAE, 0xC6, 0xF9, 0xB0, 0xA1, 0xB5, 0xE5],
        JobSpriteId::RANGER2 => &[0xB7, 0xB9, 0xC0, 0xCE, 0xC1, 0xAE, 0xB4, 0xC1, 0xB4, 0xEB],
        JobSpriteId::MECHANIC2 => &[0xB8, 0xB6, 0xB5, 0xB5, 0xB1, 0xE2, 0xBE, 0xEE],
    }
}

/// The jobs of the name table, in its order.
pub open spec fn job_table_order() -> Seq<JobSpriteId> {
    seq![JobSpriteId::NOVICE, JobSpriteId::SWORDMAN, JobSpriteId::MAGICIAN, JobSpriteId::ARCHER, JobSpriteId::ACOLYTE, JobSpriteId::MERCHANT, JobSpriteId::THIEF, JobSpriteId::KNIGHT, JobSpriteId::PRIEST, JobSpriteId::WIZARD, JobSpriteId::BLACKSMITH, JobSpriteId::HUNTER, JobSpriteId::ASSASSIN, JobSpriteId::KNIGHT2, JobSpriteId::CRUSADER, JobSpriteId::MONK, JobSpriteId::SAGE, JobSpriteId::ROGUE, JobSpriteId::ALCHEMIST, JobSpriteId::BARD, JobSpriteId::DANCER, JobSpriteId::CRUSADER2, JobSpriteId::SUPERNOVICE, JobSpriteId::GUNSLINGER, JobSpriteId::NINJA, JobSpriteId::TAEKWON, JobSpriteId::STAR, JobSpriteId::STAR2, JobSpriteId::LINKER, JobSpriteId::MARRIED, JobSpriteId::XMAS, JobSpriteId::SUMMER, JobSpriteId::KnightH, JobSpriteId::PriestH, JobSpriteId::WizardH, JobSpriteId::BlacksmithH, JobSpriteId::HunterH, JobSpriteId::AssassinH, JobSpriteId::Knight2H, JobSpriteId::CrusaderH, JobSpriteId::MonkH, JobSpriteId::SageH, JobSpriteId::RogueH, JobSpriteId::AlchemistH, JobSpriteId::BardH, JobSpriteId::DancerH, JobSpriteId::Crusader2H, JobSpriteId::RuneKnight, JobSpriteId::WARLOCK, JobSpriteId::RANGER, JobSpriteId::ARCHBISHOP, JobSpriteId::MECHANIC, JobSpriteId::GuillotineCross, JobSpriteId::RoyalGuard, JobSpriteId::SORCERER, JobSpriteId::MINSTREL, JobSpriteId::WANDERER, JobSpriteId::SURA, JobSpriteId::GENETIC, JobSpriteId::ShadowChaser, JobSpriteId::RuneKnight2, JobSpriteId::RoyalGuard2, JobSpriteId::RANGER2, JobSpriteId::MECHANIC2]
}

/// The jobs of the name table, in its order.
pub fn all_named_jobs() -> (r: Vec<JobSpriteId>)
    ensures
        r@ == job_table_order(),
{
    vec![JobSpriteId::NOVICE, JobSpriteId::SWORDMAN, JobSpriteId::MAGICIAN, JobSpriteId::ARCHER, JobSpriteId::ACOLYTE, JobSpriteId::MERCHANT, JobSpriteId::THIEF, JobSpriteId::KNIGHT, JobSpriteId::PRIEST, JobSpriteId::WIZARD, JobSpriteId::BLACKSMITH, JobSpriteId::HUNTER, JobSpriteId::ASSASSIN, JobSpriteId::KNIGHT2, JobSpriteId::CRUSADER, JobSpriteId::MONK, JobSpriteId::SAGE, JobSpriteId::ROGUE, JobSpriteId::ALCHEMIST, JobSpriteId::BARD, JobSpriteId::DANCER, JobSpriteId::CRUSADER2, JobSpriteId::SUPERNOVICE, JobSpriteId::GUNSLINGER, JobSpriteId::NINJA, JobSpriteId::TAEKWON, JobSpriteId::STAR, JobSpriteId::STAR2, JobSpriteId::LINKER, JobSpriteId::MARRIED, JobSpriteId::XMAS, JobSpriteId::SUMMER, JobSpriteId::KnightH, JobSpriteId::PriestH, JobSpriteId::WizardH, JobSpriteId::BlacksmithH, JobSpriteId::HunterH, JobSpriteId::AssassinH, JobSpriteId::Knight2H, JobSpriteId::CrusaderH, JobSpriteId::MonkH, JobSpriteId::SageH, JobSpriteId::RogueH, JobSpriteId::AlchemistH, JobSpriteId::BardH, JobSpriteId::DancerH, JobSpriteId::Crusader2H, JobSpriteId::RuneKnight, JobSpriteId::WARLOCK, JobSpriteId::RANGER, JobSpriteId::ARCHBISHOP, JobSpriteId::MECHANIC, JobSpriteId::GuillotineCross, JobSpriteId::RoyalGuard, JobSpriteId::SORCERER, JobSpriteId::MINSTREL, JobSpriteId::WANDERER, JobSpriteId::SURA, JobSpriteId::GENETIC, JobSpriteId::ShadowChaser, JobSpriteId::RuneKnight2, JobSpriteId::RoyalGuard2, JobSpriteId::RANGER2, JobSpriteId::MECHANIC2]
}

/// Every job with its display name, decoded from Windows-1252.
pub fn job_name_table() -> (r: Vec<(JobSpriteId, String)>)
    ensures
        r@.len() == job_table_order().len(),
        forall|i: int|
            0 <= i < r@.len() ==> (#[trigger] r@[i]).0 == job_table_order()[i] && r@[i].1@
                == windows_1252_decoded(spec_job_name_bytes(r@[i].0)),
{
    let jobs = all_named_jobs();
    let mut table: Vec<(JobSpriteId, String)> = Vec::new();
    let mut i: usize = 0;
    while i < jobs.len()
        invariant
            jobs@ == job_table_order(),
            i <= jobs@.len(),
            table@.len() == i,
            forall|k: int|
                0 <= k < i ==> (#[trigger] table@[k]).0 == job_table_order()[k] && table@[k].1@
                    == windows_1252_decoded(spec_job_name_bytes(table@[k].0)),
        decreases jobs@.len() - i,
    {
        let id = jobs[i];
        match decode_windows_1252(job_name_bytes(id)) {
            Some(name) => {
                table.push((id, name));
            },
            None => {},
        }
        i = i + 1;
    }
    table
}

/// The display name of `id`, as the name table holds it.
pub fn job_name(id: JobSpriteId) -> (r: String)
    ensures
        r@ == windows_1252_decoded(spec_job_name_bytes(id)),
{
    match decode_windows_1252(job_name_bytes(id)) {
        Some(name) => name,
        None => String::new(),
    }
}

} // verus!
