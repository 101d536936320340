//! Weapon item definition indices of the game.
use vstd::prelude::*;

verus! {

/// A weapon (or other item) as the game numbers it.
#[derive(Debug, Clone, Copy, PartialEq, Eq, Structural, Hash)]
pub enum WeaponId {
    NoWeapon,
    Deagle,
    Elite,
    Fiveseven,
    Glock,
    Ak47,
    Aug,
    Awp,
    Famas,
    G3SG1,
    GalilAr,
    M249,
    M4A1,
    Mac10,
    P90,
    ZoneRepulsor,
    Mp5sd,
    Ump45,
    Xm1014,
    Bizon,
    Mag7,
    Negev,
    Sawedoff,
    Tec9,
    Taser,
    Hkp2000,
    Mp7,
    Mp9,
    Nova,
    P250,
    Shield,
    Scar20,
    Sg553,
    Ssg08,
    GoldenKnife,
    Knife,
    Flashbang,
    HeGrenade,
    SmokeGrenade,
    Molotov,
    Decoy,
    IncGrenade,
    C4,
    Healthshot,
    KnifeT,
    M4a1s,
    Usps,
    Cz75a,
    Revolver,
    TaGrenade,
    Axe,
    Hammer,
    Spanner,
    GhostKnife,
    Firebomb,
    Diversion,
    FragGrenade,
    Snowball,
    BumpMine,
    Bayonet,
    ClassicKnife,
    Flip,
    Gut,
    Karambit,
    M9Bayonet,
    Huntsman,
    Falchion,
    Bowie,
    Butterfly,
    Daggers,
    Paracord,
    SurvivalKnife,
    Ursus,
    Navaja,
    NomadKnife,
    Stiletto,
    Talon,
    SkeletonKnife,
    NameTag,
    Sticker,
    MusicKit,
    SealedGraffiti,
    Graffiti,
    OperationHydraPass,
    BronzeOperationHydraCoin,
    Patch,
    Berlin2019SouvenirToken,
    GloveStuddedBrokenfang,
    Stockholm2021SouvenirToken,
    GloveStuddedBloodhound,
    GloveT,
    GloveCT,
    GloveSporty,
    GloveSlick,
    GloveLeatherWrap,
    GloveMotorcycle,
    GloveSpecialist,
    GloveHydra,
}

/// The game's item definition index of each weapon.
pub open spec fn spec_weapon_code(w: WeaponId) -> u32 {
    match w {
        WeaponId::NoWeapon => 0,
        WeaponId::Deagle => 1,
        WeaponId::Elite => 2,
        WeaponId::Fiveseven => 3,
        WeaponId::Glock => 4,
        WeaponId::Ak47 => 7,
        WeaponId::Aug => 8,
        WeaponId::Awp => 9,
        WeaponId::Famas => 10,
        WeaponId::G3SG1 => 11,
        WeaponId::GalilAr => 13,
        WeaponId::M249 => 14,
        WeaponId::M4A1 => 16,
        WeaponId::Mac10 => 17,
        WeaponId::P90 => 19,
        WeaponId::ZoneRepulsor => 20,
        WeaponId::Mp5sd => 23,
        WeaponId::Ump45 => 24,
        WeaponId::Xm1014 => 25,
        WeaponId::Bizon => 26,
        WeaponId::Mag7 => 27,
        WeaponId::Negev => 28,
        WeaponId::Sawedoff => 29,
        WeaponId::Tec9 => 30,
        WeaponId::Taser => 31,
        WeaponId::Hkp2000 => 32,
        WeaponId::Mp7 => 33,
        WeaponId::Mp9 => 34,
        WeaponId::Nova => 35,
        WeaponId::P250 => 36,
        WeaponId::Shield => 37,
        WeaponId::Scar20 => 38,
        WeaponId::Sg553 => 39,
        WeaponId::Ssg08 => 40,
        WeaponId::GoldenKnife => 41,
        WeaponId::Knife => 42,
        WeaponId::Flashbang => 43,
        WeaponId::HeGrenade => 44,
        WeaponId::SmokeGrenade => 45,
        WeaponId::Molotov => 46,
        WeaponId::Decoy => 47,
        WeaponId::IncGrenade => 48,
        WeaponId::C4 => 49,
        WeaponId::Healthshot => 57,
        WeaponId::KnifeT => 59,
        WeaponId::M4a1s => 60,
        WeaponId::Usps => 61,
        WeaponId::Cz75a => 63,
        WeaponId::Revolver => 64,
        WeaponId::TaGrenade => 68,
        WeaponId::Axe => 75,
        WeaponId::Hammer => 76,
        WeaponId::Spanner => 78,
        WeaponId::GhostKnife => 80,
        WeaponId::Firebomb => 81,
        WeaponId::Diversion => 82,
        WeaponId::FragGrenade => 83,
        WeaponId::Snowball => 84,
        WeaponId::BumpMine => 85,
        WeaponId::Bayonet => 500,
        WeaponId::ClassicKnife => 503,
        WeaponId::Flip => 505,
        WeaponId::Gut => 506,
        WeaponId::Karambit => 507,
        WeaponId::M9Bayonet => 508,
        WeaponId::Huntsman => 509,
        WeaponId::Falchion => 512,
        WeaponId::Bowie => 514,
        WeaponId::Butterfly => 515,
        WeaponId::Daggers => 516,
        WeaponId::Paracord => 517,
        WeaponId::SurvivalKnife => 518,
        WeaponId::Ursus => 519,
        WeaponId::Navaja => 520,
        WeaponId::NomadKnife => 521,
        WeaponId::Stiletto => 522,
        WeaponId::Talon => 523,
        WeaponId::SkeletonKnife => 525,
        WeaponId::NameTag => 1200,
        WeaponId::Sticker => 1209,
        WeaponId::MusicKit => 1314,
        WeaponId::SealedGraffiti => 1348,
        WeaponId::Graffiti => 1349,
        WeaponId::OperationHydraPass => 1352,
        WeaponId::BronzeOperationHydraCoin => 4353,
        WeaponId::Patch => 4609,
        WeaponId::Berlin2019SouvenirToken => 4628,
        WeaponId::GloveStuddedBrokenfang => 4725,
        WeaponId::Stockholm2021SouvenirToken => 4802,
        WeaponId::GloveStuddedBloodhound => 5027,
        WeaponId::GloveT => 5028,
        WeaponId::GloveCT => 5029,
        WeaponId::GloveSporty => 5030,
        WeaponId::GloveSlick => 5031,
        WeaponId::GloveLeatherWrap => 5032,
        WeaponId::GloveMotorcycle => 5033,
        WeaponId::GloveSpecialist => 5034,
        WeaponId::GloveHydra => 5035,
    }
}

/// The weapon an item definition index stands for: each listed index gives
/// its own weapon, except that every knife (the golden, ghost and T knives,
/// and every index from 500 on) gives the plain `Knife`; the Tec-9's index
/// and all unlisted ones give `NoWeapon`.
pub open spec fn spec_weapon_from_code(v: u32) -> WeaponId {
    if v == 1 {
        WeaponId::Deagle
    } else if v == 2 {
        WeaponId::Elite
    } else if v == 3 {
        WeaponId::Fiveseven
    } else if v == 4 {
        WeaponId::Glock
    } else if v == 7 {
        WeaponId::Ak47
    } else if v == 8 {
        WeaponId::Aug
    } else if v == 9 {
        WeaponId::Awp
    } else if v == 10 {
        WeaponId::Famas
    } else if v == 11 {
        WeaponId::G3SG1
    } else if v == 13 {
        WeaponId::GalilAr
    } else if v == 14 {
        WeaponId::M249
    } else if v == 16 {
        WeaponId::M4A1
    } else if v == 17 {
        WeaponId::Mac10
    } else if v == 19 {
        WeaponId::P90
    } else if v == 20 {
        WeaponId::ZoneRepulsor
    } else if v == 23 {
        WeaponId::Mp5sd
    } else if v == 24 {
        WeaponId::Ump45
    } else if v == 25 {
        WeaponId::Xm1014
    } else if v == 26 {
        WeaponId::Bizon
    } else if v == 27 {
        WeaponId::Mag7
    } else if v == 28 {
        WeaponId::Negev
    } else if v == 29 {
        WeaponId::Sawedoff
    } else if v == 31 {
        WeaponId::Taser
    } else if v == 32 {
        WeaponId::Hkp2000
    } else if v == 33 {
        WeaponId::Mp7
    } else if v == 34 {
        WeaponId::Mp9
    } else if v == 35 {
        WeaponId::Nova
    } else if v == 36 {
        WeaponId::P250
    } else if v == 37 {
        WeaponId::Shield
    } else if v == 38 {
        WeaponId::Scar20
    } else if v == 39 {
        WeaponId::Sg553
    } else if v == 40 {
        WeaponId::Ssg08
    } else if v == 43 {
        WeaponId::Flashbang
    } else if v == 44 {
        WeaponId::HeGrenade
    } else if v == 45 {
        WeaponId::SmokeGrenade
    } else if v == 46 {
        WeaponId::Molotov
    } else if v == 47 {
        WeaponId::Decoy
    } else if v == 48 {
        WeaponId::IncGrenade
    } else if v == 49 {
        WeaponId::C4
    } else if v == 57 {
        WeaponId::Healthshot
    } else if v == 60 {
        WeaponId::M4a1s
    } else if v == 61 {
        WeaponId::Usps
    } else if v == 63 {
        WeaponId::Cz75a
    } else if v == 64 {
        WeaponId::Revolver
    } else if v == 68 {
        WeaponId::TaGrenade
    } else if v == 75 {
        WeaponId::Axe
    } else if v == 76 {
        WeaponId::Hammer
    } else if v == 78 {
        WeaponId::Spanner
    } else if v == 81 {
        WeaponId::Firebomb
    } else if v == 82 {
        WeaponId::Diversion
    } else if v == 83 {
        WeaponId::FragGrenade
    } else if v == 84 {
        WeaponId::Snowball
    } else if v == 85 {
        WeaponId::BumpMine
    } else if v == 80 {
        WeaponId::Knife
    } else if v == 42 {
        WeaponId::Knife
    } else if v == 41 {
        WeaponId::Knife
    } else if v == 59 {
        WeaponId::Knife
    } else if v >= 500 {
        WeaponId::Knife
    } else {
        WeaponId::NoWeapon
    }
}

/// The name a weapon is printed with.
pub open spec fn spec_weapon_name(w: WeaponId) -> Seq<char> {
    match w {
        WeaponId::NoWeapon => "None"@,
        WeaponId::Deagle => "Deagle"@,
        WeaponId::Elite => "Elite"@,
        WeaponId::Fiveseven => "Fiveseven"@,
        WeaponId::Glock => "Glock"@,
        WeaponId::Ak47 => "Ak47"@,
        WeaponId::Aug => "Aug"@,
        WeaponId::Awp => "Awp"@,
        WeaponId::Famas => "Famas"@,
        WeaponId::G3SG1 => "G3SG1"@,
        WeaponId::GalilAr => "GalilAr"@,
        WeaponId::M249 => "M249"@,
        WeaponId::M4A1 => "M4A1"@,
        WeaponId::Mac10 => "Mac10"@,
        WeaponId::P90 => "P90"@,
        WeaponId::ZoneRepulsor => "ZoneRepulsor"@,
        WeaponId::Mp5sd => "Mp5sd"@,
        WeaponId::Ump45 => "Ump45"@,
        WeaponId::Xm1014 => "Xm1014"@,
        WeaponId::Bizon => "Bizon"@,
        WeaponId::Mag7 => "Mag7"@,
        WeaponId::Negev => "Negev"@,
        WeaponId::Sawedoff => "Sawedoff"@,
        WeaponId::Tec9 => "Tec9"@,
        WeaponId::Taser => "Taser"@,
        WeaponId::Hkp2000 => "Hkp2000"@,
        WeaponId::Mp7 => "Mp7"@,
        WeaponId::Mp9 => "Mp9"@,
        WeaponId::Nova => "Nova"@,
        WeaponId::P250 => "P250"@,
        WeaponId::Shield => "Shield"@,
        WeaponId::Scar20 => "Scar20"@,
        WeaponId::Sg553 => "Sg553"@,
        WeaponId::Ssg08 => "Ssg08"@,
        WeaponId::GoldenKnife => "GoldenKnife"@,
        WeaponId::Knife => "Knife"@,
        WeaponId::Flashbang => "Flashbang"@,
        WeaponId::HeGrenade => "HeGrenade"@,
        WeaponId::SmokeGrenade => "SmokeGrenade"@,
        WeaponId::Molotov => "Molotov"@,
        WeaponId::Decoy => "Decoy"@,
        WeaponId::IncGrenade => "IncGrenade"@,
        WeaponId::C4 => "C4"@,
        WeaponId::Healthshot => "Healthshot"@,
        WeaponId::KnifeT => "KnifeT"@,
        WeaponId::M4a1s => "M4a1s"@,
        WeaponId::Usps => "Usps"@,
        WeaponId::Cz75a => "Cz75a"@,
        WeaponId::Revolver => "Revolver"@,
        WeaponId::TaGrenade => "TaGrenade"@,
        WeaponId::Axe => "Axe"@,
        WeaponId::Hammer => "Hammer"@,
        WeaponId::Spanner => "Spanner"@,
        WeaponId::GhostKnife => "GhostKnife"@,
        WeaponId::Firebomb => "Firebomb"@,
        WeaponId::Diversion => "Diversion"@,
        WeaponId::FragGrenade => "FragGrenade"@,
        WeaponId::Snowball => "Snowball"@,
        WeaponId::BumpMine => "BumpMine"@,
        WeaponId::Bayonet => "Bayonet"@,
        WeaponId::ClassicKnife => "ClassicKnife"@,
        WeaponId::Flip => "Flip"@,
        WeaponId::Gut => "Gut"@,
        WeaponId::Karambit => "Karambit"@,
        WeaponId::M9Bayonet => "M9Bayonet"@,
        WeaponId::Huntsman => "Huntsman"@,
        WeaponId::Falchion => "Falchion"@,
        WeaponId::Bowie => "Bowie"@,
        WeaponId::Butterfly => "Butterfly"@,
        WeaponId::Daggers => "Daggers"@,
        WeaponId::Paracord => "Paracord"@,
        WeaponId::SurvivalKnife => "SurvivalKnife"@,
        WeaponId::Ursus => "Ursus"@,
        WeaponId::Navaja => "Navaja"@,
        WeaponId::NomadKnife => "NomadKnife"@,
        WeaponId::Stiletto => "Stiletto"@,
        WeaponId::Talon => "Talon"@,
        WeaponId::SkeletonKnife => "SkeletonKnife"@,
        WeaponId::NameTag => "NameTag"@,
        WeaponId::Sticker => "Sticker"@,
        WeaponId::MusicKit => "MusicKit"@,
        WeaponId::SealedGraffiti => "SealedGraffiti"@,
        WeaponId::Graffiti => "Graffiti"@,
        WeaponId::OperationHydraPass => "OperationHydraPass"@,
        WeaponId::BronzeOperationHydraCoin => "BronzeOperationHydraCoin"@,
        WeaponId::Patch => "Patch"@,
        WeaponId::Berlin2019SouvenirToken => "Berlin2019SouvenirToken"@,
        WeaponId::GloveStuddedBrokenfang => "GloveStuddedBrokenfang"@,
        WeaponId::Stockholm2021SouvenirToken => "Stockholm2021SouvenirToken"@,
        WeaponId::GloveStuddedBloodhound => "GloveStuddedBloodhound"@,
        WeaponId::GloveT => "GloveT"@,
        WeaponId::GloveCT => "GloveCT"@,
        WeaponId::GloveSporty => "GloveSporty"@,
        WeaponId::GloveSlick => "GloveSlick"@,
        WeaponId::GloveLeatherWrap => "GloveLeatherWrap"@,
        WeaponId::GloveMotorcycle => "GloveMotorcycle"@,
        WeaponId::GloveSpecialist => "GloveSpecialist"@,
        WeaponId::GloveHydra => "GloveHydra"@,
    }
}

impl WeaponId {
    /// The game's item definition index of this weapon.
    pub fn code(&self) -> (res: u32)
        ensures
            res == spec_weapon_code(*self),
    {
        match self {
            WeaponId::NoWeapon => 0,
            WeaponId::Deagle => 1,
            WeaponId::Elite => 2,
            WeaponId::Fiveseven => 3,
            WeaponId::Glock => 4,
            WeaponId::Ak47 => 7,
            WeaponId::Aug => 8,
            WeaponId::Awp => 9,
            WeaponId::Famas => 10,
            WeaponId::G3SG1 => 11,
            WeaponId::GalilAr => 13,
            WeaponId::M249 => 14,
            WeaponId::M4A1 => 16,
            WeaponId::Mac10 => 17,
            WeaponId::P90 => 19,
            WeaponId::ZoneRepulsor => 20,
            WeaponId::Mp5sd => 23,
            WeaponId::Ump45 => 24,
            WeaponId::Xm1014 => 25,
            WeaponId::Bizon => 26,
            WeaponId::Mag7 => 27,
            WeaponId::Negev => 28,
            WeaponId::Sawedoff => 29,
            WeaponId::Tec9 => 30,
            WeaponId::Taser => 31,
            WeaponId::Hkp2000 => 32,
            WeaponId::Mp7 => 33,
            WeaponId::Mp9 => 34,
            WeaponId::Nova => 35,
            WeaponId::P250 => 36,
            WeaponId::Shield => 37,
            WeaponId::Scar20 => 38,
            WeaponId::Sg553 => 39,
            WeaponId::Ssg08 => 40,
            WeaponId::GoldenKnife => 41,
            WeaponId::Knife => 42,
            WeaponId::Flashbang => 43,
            WeaponId::HeGrenade => 44,
            WeaponId::SmokeGrenade => 45,
            WeaponId::Molotov => 46,
            WeaponId::Decoy => 47,
            WeaponId::IncGrenade => 48,
            WeaponId::C4 => 49,
            WeaponId::Healthshot => 57,
            WeaponId::KnifeT => 59,
            WeaponId::M4a1s => 60,
            WeaponId::Usps => 61,
            WeaponId::Cz75a => 63,
            WeaponId::Revolver => 64,
            WeaponId::TaGrenade => 68,
            WeaponId::Axe => 75,
            WeaponId::Hammer => 76,
            WeaponId::Spanner => 78,
            WeaponId::GhostKnife => 80,
            WeaponId::Firebomb => 81,
            WeaponId::Diversion => 82,
            WeaponId::FragGrenade => 83,
            WeaponId::Snowball => 84,
            WeaponId::BumpMine => 85,
            WeaponId::Bayonet => 500,
            WeaponId::ClassicKnife => 503,
            WeaponId::Flip => 505,
            WeaponId::Gut => 506,
            WeaponId::Karambit => 507,
            WeaponId::M9Bayonet => 508,
            WeaponId::Huntsman => 509,
            WeaponId::Falchion => 512,
            WeaponId::Bowie => 514,
            WeaponId::Butterfly => 515,
            WeaponId::Daggers => 516,
            WeaponId::Paracord => 517,
            WeaponId::SurvivalKnife => 518,
            WeaponId::Ursus => 519,
            WeaponId::Navaja => 520,
            WeaponId::NomadKnife => 521,
            WeaponId::Stiletto => 522,
            WeaponId::Talon => 523,
            WeaponId::SkeletonKnife => 525,
            WeaponId::NameTag => 1200,
            WeaponId::Sticker => 1209,
            WeaponId::MusicKit => 1314,
            WeaponId::SealedGraffiti => 1348,
            WeaponId::Graffiti => 1349,
            WeaponId::OperationHydraPass => 1352,
            WeaponId::BronzeOperationHydraCoin => 4353,
            WeaponId::Patch => 4609,
            WeaponId::Berlin2019SouvenirToken => 4628,
            WeaponId::GloveStuddedBrokenfang => 4725,
            WeaponId::Stockholm2021SouvenirToken => 4802,
            WeaponId::GloveStuddedBloodhound => 5027,
            WeaponId::GloveT => 5028,
            WeaponId::GloveCT => 5029,
            WeaponId::GloveSporty => 5030,
            WeaponId::GloveSlick => 5031,
            WeaponId::GloveLeatherWrap => 5032,
            WeaponId::GloveMotorcycle => 5033,
            WeaponId::GloveSpecialist => 5034,
            WeaponId::GloveHydra => 5035,
        }
    }

    /// The weapon an item definition index stands for (see
    /// `spec_weapon_from_code`).
    pub fn from_code(v: u32) -> (res: WeaponId)
        ensures
            res == spec_weapon_from_code(v),
    {
        if v == 1 {
            WeaponId::Deagle
        } else if v == 2 {
            WeaponId::Elite
        } else if v == 3 {
            WeaponId::Fiveseven
        } else if v == 4 {
            WeaponId::Glock
        } else if v == 7 {
            WeaponId::Ak47
        } else if v == 8 {
            WeaponId::Aug
        } else if v == 9 {
            WeaponId::Awp
        } else if v == 10 {
            WeaponId::Famas
        } else if v == 11 {
            WeaponId::G3SG1
        } else if v == 13 {
            WeaponId::GalilAr
        } else if v == 14 {
            WeaponId::M249
        } else if v == 16 {
            WeaponId::M4A1
        } else if v == 17 {
            WeaponId::Mac10
        } else if v == 19 {
            WeaponId::P90
        } else if v == 20 {
            WeaponId::ZoneRepulsor
        } else if v == 23 {
            WeaponId::Mp5sd
        } else if v == 24 {
            WeaponId::Ump45
        } else if v == 25 {
            WeaponId::Xm1014
        } else if v == 26 {
            WeaponId::Bizon
        } else if v == 27 {
            WeaponId::Mag7
        } else if v == 28 {
            WeaponId::Negev
        } else if v == 29 {
            WeaponId::Sawedoff
        } else if v == 31 {
            WeaponId::Taser
        } else if v == 32 {
            WeaponId::Hkp2000
        } else if v == 33 {
            WeaponId::Mp7
        } else if v == 34 {
            WeaponId::Mp9
        } else if v == 35 {
            WeaponId::Nova
        } else if v == 36 {
            WeaponId::P250
        } else if v == 37 {
            WeaponId::Shield
        } else if v == 38 {
            WeaponId::Scar20
        } else if v == 39 {
            WeaponId::Sg553
        } else if v == 40 {
            WeaponId::Ssg08
        } else if v == 43 {
            WeaponId::Flashbang
        } else if v == 44 {
            WeaponId::HeGrenade
        } else if v == 45 {
            WeaponId::SmokeGrenade
        } else if v == 46 {
            WeaponId::Molotov
        } else if v == 47 {
            WeaponId::Decoy
        } else if v == 48 {
            WeaponId::IncGrenade
        } else if v == 49 {
            WeaponId::C4
        } else if v == 57 {
            WeaponId::Healthshot
        } else if v == 60 {
            WeaponId::M4a1s
        } else if v == 61 {
            WeaponId::Usps
        } else if v == 63 {
            WeaponId::Cz75a
        } else if v == 64 {
            WeaponId::Revolver
        } else if v == 68 {
            WeaponId::TaGrenade
        } else if v == 75 {
            WeaponId::Axe
        } else if v == 76 {
            WeaponId::Hammer
        } else if v == 78 {
            WeaponId::Spanner
        } else if v == 81 {
            WeaponId::Firebomb
        } else if v == 82 {
            WeaponId::Diversion
        } else if v == 83 {
            WeaponId::FragGrenade
        } else if v == 84 {
            WeaponId::Snowball
        } else if v == 85 {
            WeaponId::BumpMine
        } else if v == 80 {
            WeaponId::Knife
        } else if v == 42 {
            WeaponId::Knife
        } else if v == 41 {
            WeaponId::Knife
        } else if v == 59 {
            WeaponId::Knife
        } else if v >= 500 {
            WeaponId::Knife
        } else {
            WeaponId::NoWeapon
        }
    }

    /// The name the weapon is printed with, as its variant is spelled.
    pub fn name(&self) -> (res: &'static str)
        ensures
            res@ == spec_weapon_name(*self),
    {
        match self {
            WeaponId::NoWeapon => "None",
            WeaponId::Deagle => "Deagle",
            WeaponId::Elite => "Elite",
            WeaponId::Fiveseven => "Fiveseven",
            WeaponId::Glock => "Glock",
            WeaponId::Ak47 => "Ak47",
            WeaponId::Aug => "Aug",
            WeaponId::Awp => "Awp",
            WeaponId::Famas => "Famas",
            WeaponId::G3SG1 => "G3SG1",
            WeaponId::GalilAr => "GalilAr",
            WeaponId::M249 => "M249",
            WeaponId::M4A1 => "M4A1",
            WeaponId::Mac10 => "Mac10",
            WeaponId::P90 => "P90",
            WeaponId::ZoneRepulsor => "ZoneRepulsor",
            WeaponId::Mp5sd => "Mp5sd",
            WeaponId::Ump45 => "Ump45",
            WeaponId::Xm1014 => "Xm1014",
            WeaponId::Bizon => "Bizon",
            WeaponId::Mag7 => "Mag7",
            WeaponId::Negev => "Negev",
            WeaponId::Sawedoff => "Sawedoff",
            WeaponId::Tec9 => "Tec9",
            WeaponId::Taser => "Taser",
            WeaponId::Hkp2000 => "Hkp2000",
            WeaponId::Mp7 => "Mp7",
            WeaponId::Mp9 => "Mp9",
            WeaponId::Nova => "Nova",
            WeaponId::P250 => "P250",
            WeaponId::Shield => "Shield",
            WeaponId::Scar20 => "Scar20",
            WeaponId::Sg553 => "Sg553",
            WeaponId::Ssg08 => "Ssg08",
            WeaponId::GoldenKnife => "GoldenKnife",
            WeaponId::Knife => "Knife",
            WeaponId::Flashbang => "Flashbang",
            WeaponId::HeGrenade => "HeGrenade",
            WeaponId::SmokeGrenade => "SmokeGrenade",
            WeaponId::Molotov => "Molotov",
            WeaponId::Decoy => "Decoy",
            WeaponId::IncGrenade => "IncGrenade",
            WeaponId::C4 => "C4",
            WeaponId::Healthshot => "Healthshot",
            WeaponId::KnifeT => "KnifeT",
            WeaponId::M4a1s => "M4a1s",
            WeaponId::Usps => "Usps",
            WeaponId::Cz75a => "Cz75a",
            WeaponId::Revolver => "Revolver",
            WeaponId::TaGrenade => "TaGrenade",
            WeaponId::Axe => "Axe",
            WeaponId::Hammer => "Hammer",
            WeaponId::Spanner => "Spanner",
            WeaponId::GhostKnife => "GhostKnife",
            WeaponId::Firebomb => "Firebomb",
            WeaponId::Diversion => "Diversion",
            WeaponId::FragGrenade => "FragGrenade",
            WeaponId::Snowball => "Snowball",
            WeaponId::BumpMine => "BumpMine",
            WeaponId::Bayonet => "Bayonet",
            WeaponId::ClassicKnife => "ClassicKnife",
            WeaponId::Flip => "Flip",
            WeaponId::Gut => "Gut",
            WeaponId::Karambit => "Karambit",
            WeaponId::M9Bayonet => "M9Bayonet",
            WeaponId::Huntsman => "Huntsman",
            WeaponId::Falchion => "Falchion",
            WeaponId::Bowie => "Bowie",
            WeaponId::Butterfly => "Butterfly",
            WeaponId::Daggers => "Daggers",
            WeaponId::Paracord => "Paracord",
            WeaponId::SurvivalKnife => "SurvivalKnife",
            WeaponId::Ursus => "Ursus",
            WeaponId::Navaja => "Navaja",
            WeaponId::NomadKnife => "NomadKnife",
            WeaponId::Stiletto => "Stiletto",
            WeaponId::Talon => "Talon",
            WeaponId::SkeletonKnife => "SkeletonKnife",
            WeaponId::NameTag => "NameTag",
            WeaponId::Sticker => "Sticker",
            WeaponId::MusicKit => "MusicKit",
            WeaponId::SealedGraffiti => "SealedGraffiti",
            WeaponId::Graffiti => "Graffiti",
            WeaponId::OperationHydraPass => "OperationHydraPass",
            WeaponId::BronzeOperationHydraCoin => "BronzeOperationHydraCoin",
            WeaponId::Patch => "Patch",
            WeaponId::Berlin2019SouvenirToken => "Berlin2019SouvenirToken",
            WeaponId::GloveStuddedBrokenfang => "GloveStuddedBrokenfang",
            WeaponId::Stockholm2021SouvenirToken => "Stockholm2021SouvenirToken",
            WeaponId::GloveStuddedBloodhound => "GloveStuddedBloodhound",
            WeaponId::GloveT => "GloveT",
            WeaponId::GloveCT => "GloveCT",
            WeaponId::GloveSporty => "GloveSporty",
            WeaponId::GloveSlick => "GloveSlick",
            WeaponId::GloveLeatherWrap => "GloveLeatherWrap",
            WeaponId::GloveMotorcycle => "GloveMotorcycle",
            WeaponId::GloveSpecialist => "GloveSpecialist",
            WeaponId::GloveHydra => "GloveHydra",
        }
    }
}

/// The item definition indices are the game's fixed numbers: each weapon's
/// index, and the weapon each listed index reads back as.
pub proof fn lemma_weapon_code_table()
    ensures
        spec_weapon_code(WeaponId::NoWeapon) == 0u32,
        spec_weapon_code(WeaponId::Deagle) == 1u32,
        spec_weapon_code(WeaponId::Elite) == 2u32,
        spec_weapon_code(WeaponId::Fiveseven) == 3u32,
        spec_weapon_code(WeaponId::Glock) == 4u32,
        spec_weapon_code(WeaponId::Ak47) == 7u32,
        spec_weapon_code(WeaponId::Aug) == 8u32,
        spec_weapon_code(WeaponId::Awp) == 9u32,
        spec_weapon_code(WeaponId::Famas) == 10u32,
        spec_weapon_code(WeaponId::G3SG1) == 11u32,
        spec_weapon_code(WeaponId::GalilAr) == 13u32,
        spec_weapon_code(WeaponId::M249) == 14u32,
        spec_weapon_code(WeaponId::M4A1) == 16u32,
        spec_weapon_code(WeaponId::Mac10) == 17u32,
        spec_weapon_code(WeaponId::P90) == 19u32,
        spec_weapon_code(WeaponId::ZoneRepulsor) == 20u32,
        spec_weapon_code(WeaponId::Mp5sd) == 23u32,
        spec_weapon_code(WeaponId::Ump45) == 24u32,
        spec_weapon_code(WeaponId::Xm1014) == 25u32,
        spec_weapon_code(WeaponId::Bizon) == 26u32,
        spec_weapon_code(WeaponId::Mag7) == 27u32,
        spec_weapon_code(WeaponId::Negev) == 28u32,
        spec_weapon_code(WeaponId::Sawedoff) == 29u32,
        spec_weapon_code(WeaponId::Tec9) == 30u32,
        spec_weapon_code(WeaponId::Taser) == 31u32,
        spec_weapon_code(WeaponId::Hkp2000) == 32u32,
        spec_weapon_code(WeaponId::Mp7) == 33u32,
        spec_weapon_code(WeaponId::Mp9) == 34u32,
        spec_weapon_code(WeaponId::Nova) == 35u32,
        spec_weapon_code(WeaponId::P250) == 36u32,
        spec_weapon_code(WeaponId::Shield) == 37u32,
        spec_weapon_code(WeaponId::Scar20) == 38u32,
        spec_weapon_code(WeaponId::Sg553) == 39u32,
        spec_weapon_code(WeaponId::Ssg08) == 40u32,
        spec_weapon_code(WeaponId::GoldenKnife) == 41u32,
        spec_weapon_code(WeaponId::Knife) == 42u32,
        spec_weapon_code(WeaponId::Flashbang) == 43u32,
        spec_weapon_code(WeaponId::HeGrenade) == 44u32,
        spec_weapon_code(WeaponId::SmokeGrenade) == 45u32,
        spec_weapon_code(WeaponId::Molotov) == 46u32,
        spec_weapon_code(WeaponId::Decoy) == 47u32,
        spec_weapon_code(WeaponId::IncGrenade) == 48u32,
        spec_weapon_code(WeaponId::C4) == 49u32,
        spec_weapon_code(WeaponId::Healthshot) == 57u32,
        spec_weapon_code(WeaponId::KnifeT) == 59u32,
        spec_weapon_code(WeaponId::M4a1s) == 60u32,
        spec_weapon_code(WeaponId::Usps) == 61u32,
        spec_weapon_code(WeaponId::Cz75a) == 63u32,
        spec_weapon_code(WeaponId::Revolver) == 64u32,
        spec_weapon_code(WeaponId::TaGrenade) == 68u32,
        spec_weapon_code(WeaponId::Axe) == 75u32,
        spec_weapon_code(WeaponId::Hammer) == 76u32,
        spec_weapon_code(WeaponId::Spanner) == 78u32,
        spec_weapon_code(WeaponId::GhostKnife) == 80u32,
        spec_weapon_code(WeaponId::Firebomb) == 81u32,
        spec_weapon_code(WeaponId::Diversion) == 82u32,
        spec_weapon_code(WeaponId::FragGrenade) == 83u32,
        spec_weapon_code(WeaponId::Snowball) == 84u32,
        spec_weapon_code(WeaponId::BumpMine) == 85u32,
        spec_weapon_code(WeaponId::Bayonet) == 500u32,
        spec_weapon_code(WeaponId::ClassicKnife) == 503u32,
        spec_weapon_code(WeaponId::Flip) == 505u32,
        spec_weapon_code(WeaponId::Gut) == 506u32,
        spec_weapon_code(WeaponId::Karambit) == 507u32,
        spec_weapon_code(WeaponId::M9Bayonet) == 508u32,
        spec_weapon_code(WeaponId::Huntsman) == 509u32,
        spec_weapon_code(WeaponId::Falchion) == 512u32,
        spec_weapon_code(WeaponId::Bowie) == 514u32,
        spec_weapon_code(WeaponId::Butterfly) == 515u32,
        spec_weapon_code(WeaponId::Daggers) == 516u32,
        spec_weapon_code(WeaponId::Paracord) == 517u32,
        spec_weapon_code(WeaponId::SurvivalKnife) == 518u32,
        spec_weapon_code(WeaponId::Ursus) == 519u32,
        spec_weapon_code(WeaponId::Navaja) == 520u32,
        spec_weapon_code(WeaponId::NomadKnife) == 521u32,
        spec_weapon_code(WeaponId::Stiletto) == 522u32,
        spec_weapon_code(WeaponId::Talon) == 523u32,
        spec_weapon_code(WeaponId::SkeletonKnife) == 525u32,
        spec_weapon_code(WeaponId::NameTag) == 1200u32,
        spec_weapon_code(WeaponId::Sticker) == 1209u32,
        spec_weapon_code(WeaponId::MusicKit) == 1314u32,
        spec_weapon_code(WeaponId::SealedGraffiti) == 1348u32,
        spec_weapon_code(WeaponId::Graffiti) == 1349u32,
        spec_weapon_code(WeaponId::OperationHydraPass) == 1352u32,
        spec_weapon_code(WeaponId::BronzeOperationHydraCoin) == 4353u32,
        spec_weapon_code(WeaponId::Patch) == 4609u32,
        spec_weapon_code(WeaponId::Berlin2019SouvenirToken) == 4628u32,
        spec_weapon_code(WeaponId::GloveStuddedBrokenfang) == 4725u32,
        spec_weapon_code(WeaponId::Stockholm2021SouvenirToken) == 4802u32,
        spec_weapon_code(WeaponId::GloveStuddedBloodhound) == 5027u32,
        spec_weapon_code(WeaponId::GloveT) == 5028u32,
        spec_weapon_code(WeaponId::GloveCT) == 5029u32,
        spec_weapon_code(WeaponId::GloveSporty) == 5030u32,
        spec_weapon_code(WeaponId::GloveSlick) == 5031u32,
        spec_weapon_code(WeaponId::GloveLeatherWrap) == 5032u32,
        spec_weapon_code(WeaponId::GloveMotorcycle) == 5033u32,
        spec_weapon_code(WeaponId::GloveSpecialist) == 5034u32,
        spec_weapon_code(WeaponId::GloveHydra) == 5035u32,
        spec_weapon_from_code(1u32) == WeaponId::Deagle,
        spec_weapon_from_code(2u32) == WeaponId::Elite,
        spec_weapon_from_code(3u32) == WeaponId::Fiveseven,
        spec_weapon_from_code(4u32) == WeaponId::Glock,
        spec_weapon_from_code(7u32) == WeaponId::Ak47,
        spec_weapon_from_code(8u32) == WeaponId::Aug,
        spec_weapon_from_code(9u32) == WeaponId::Awp,
        spec_weapon_from_code(10u32) == WeaponId::Famas,
        spec_weapon_from_code(11u32) == WeaponId::G3SG1,
        spec_weapon_from_code(13u32) == WeaponId::GalilAr,
        spec_weapon_from_code(14u32) == WeaponId::M249,
        spec_weapon_from_code(16u32) == WeaponId::M4A1,
        spec_weapon_from_code(17u32) == WeaponId::Mac10,
        spec_weapon_from_code(19u32) == WeaponId::P90,
        spec_weapon_from_code(20u32) == WeaponId::ZoneRepulsor,
        spec_weapon_from_code(23u32) == WeaponId::Mp5sd,
        spec_weapon_from_code(24u32) == WeaponId::Ump45,
        spec_weapon_from_code(25u32) == WeaponId::Xm1014,
        spec_weapon_from_code(26u32) == WeaponId::Bizon,
        spec_weapon_from_code(27u32) == WeaponId::Mag7,
        spec_weapon_from_code(28u32) == WeaponId::Negev,
        spec_weapon_from_code(29u32) == WeaponId::Sawedoff,
        spec_weapon_from_code(31u32) == WeaponId::Taser,
        spec_weapon_from_code(32u32) == WeaponId::Hkp2000,
        spec_weapon_from_code(33u32) == WeaponId::Mp7,
        spec_weapon_from_code(34u32) == WeaponId::Mp9,
        spec_weapon_from_code(35u32) == WeaponId::Nova,
        spec_weapon_from_code(36u32) == WeaponId::P250,
        spec_weapon_from_code(37u32) == WeaponId::Shield,
        spec_weapon_from_code(38u32) == WeaponId::Scar20,
        spec_weapon_from_code(39u32) == WeaponId::Sg553,
        spec_weapon_from_code(40u32) == WeaponId::Ssg08,
        spec_weapon_from_code(43u32) == WeaponId::Flashbang,
        spec_weapon_from_code(44u32) == WeaponId::HeGrenade,
        spec_weapon_from_code(45u32) == WeaponId::SmokeGrenade,
        spec_weapon_from_code(46u32) == WeaponId::Molotov,
        spec_weapon_from_code(47u32) == WeaponId::Decoy,
        spec_weapon_from_code(48u32) == WeaponId::IncGrenade,
        spec_weapon_from_code(49u32) == WeaponId::C4,
        spec_weapon_from_code(57u32) == WeaponId::Healthshot,
        spec_weapon_from_code(60u32) == WeaponId::M4a1s,
        spec_weapon_from_code(61u32) == WeaponId::Usps,
        spec_weapon_from_code(63u32) == WeaponId::Cz75a,
        spec_weapon_from_code(64u32) == WeaponId::Revolver,
        spec_weapon_from_code(68u32) == WeaponId::TaGrenade,
        spec_weapon_from_code(75u32) == WeaponId::Axe,
        spec_weapon_from_code(76u32) == WeaponId::Hammer,
        spec_weapon_from_code(78u32) == WeaponId::Spanner,
        spec_weapon_from_code(81u32) == WeaponId::Firebomb,
        spec_weapon_from_code(82u32) == WeaponId::Diversion,
        spec_weapon_from_code(83u32) == WeaponId::FragGrenade,
        spec_weapon_from_code(84u32) == WeaponId::Snowball,
        spec_weapon_from_code(85u32) == WeaponId::BumpMine,
        spec_weapon_from_code(80u32) == WeaponId::Knife,
        spec_weapon_from_code(42u32) == WeaponId::Knife,
        spec_weapon_from_code(41u32) == WeaponId::Knife,
        spec_weapon_from_code(59u32) == WeaponId::Knife,
        spec_weapon_from_code(30u32) == WeaponId::NoWeapon,
        spec_weapon_from_code(0u32) == WeaponId::NoWeapon,
{
}

/// Reading back the index of a weapon gives the same weapon, for every
/// weapon other than the Tec-9 and the knives that are read as `Knife`.
pub proof fn lemma_weapon_code_roundtrip(w: WeaponId)
    requires
        spec_weapon_code(w) < 500,
        w != WeaponId::Tec9,
        w != WeaponId::GoldenKnife,
        w != WeaponId::KnifeT,
        w != WeaponId::GhostKnife,
    ensures
        spec_weapon_from_code(spec_weapon_code(w)) == w,
{
}

/// Every item from index 500 on is read back as the plain knife.
pub proof fn lemma_weapon_code_high_is_knife(w: WeaponId)
    requires
        spec_weapon_code(w) >= 500,
    ensures
        spec_weapon_from_code(spec_weapon_code(w)) == WeaponId::Knife,
{
}

/// Reading an index gives a weapon whose own index reads back as itself:
/// reading is idempotent.
pub proof fn lemma_weapon_from_code_idempotent(v: u32)
    ensures
        spec_weapon_from_code(spec_weapon_code(spec_weapon_from_code(v))) == spec_weapon_from_code(v),
{
}

/// No two weapons share an index.
pub proof fn lemma_weapon_code_injective(a: WeaponId, b: WeaponId)
    requires
        spec_weapon_code(a) == spec_weapon_code(b),
    ensures
        a == b,
{
}

impl From<u32> for WeaponId {
    fn from(v: u32) -> (res: WeaponId) {
        WeaponId::from_code(v)
    }
}

impl vstd::std_specs::convert::FromSpecImpl<u32> for WeaponId {
    open spec fn obeys_from_spec() -> bool {
        true
    }

    open spec fn from_spec(v: u32) -> WeaponId {
        spec_weapon_from_code(v)
    }
}

} // verus!
