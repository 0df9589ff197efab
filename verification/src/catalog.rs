//! The catalogue of targets: constellations, Messier objects and other deep-sky
//! objects, with the message ids of their names and seasons.
use vstd::prelude::*;

verus! {

/// The kind of a catalogue target.
#[derive(Debug, Clone, Copy, PartialEq, Eq, Structural)]
pub enum TargetType {
    Constellation,
    Messier,
    /// A nebula outside the Messier list.
    Nebula,
    /// A galaxy outside the Messier list.
    Galaxy,
    /// A cluster outside the Messier list.
    Cluster,
}

/// A catalogue target. Texts are message ids of the translation catalogue,
/// except `id` and `abbr`, which are shown as they are.
#[derive(Debug, Clone, Copy)]
pub struct Target {
    pub target_type: TargetType,
    pub id: Option<&'static str>,
    pub name_key: &'static str,
    pub latin_key: &'static str,
    pub abbr: Option<&'static str>,
    pub parent_key: Option<&'static str>,
    pub season_key: &'static str,
    /// Declination, in hundredths of a degree.
    pub dec: i32,
}

/// Number of targets in the catalogue.
pub const CATALOG_LEN: usize = 286;

/// A declination in hundredths of a degree lies between the celestial poles.
pub open spec fn valid_declination(dec: i32) -> bool {
    -9000 <= dec <= 9000
}

/// The season message ids a target can belong to.
pub open spec fn is_season_key(key: Seq<char>) -> bool {
    ||| key == "season-spring"@
    ||| key == "season-summer"@
    ||| key == "season-autumn"@
    ||| key == "season-winter"@
    ||| key == "season-circumpolar-n"@
    ||| key == "season-circumpolar-s"@
}

/// The catalogue's entries, in display order.
pub open spec fn catalog_table() -> Seq<Target> {
    seq![
        Target { target_type: TargetType::Constellation, id: None, name_key: "target-andromde", latin_key: "latin-andromeda", abbr: Some("And"), parent_key: None, season_key: "season-autumn", dec: 3700i32 },
        Target { target_type: TargetType::Constellation, id: None, name_key: "target-aigle", latin_key: "latin-aquila", abbr: Some("Aql"), parent_key: None, season_key: "season-summer", dec: 300i32 },
        Target { target_type: TargetType::Constellation, id: None, name_key: "target-verseau", latin_key: "latin-aquarius", abbr: Some("Aqr"), parent_key: None, season_key: "season-autumn", dec: -1000i32 },
        Target { target_type: TargetType::Constellation, id: None, name_key: "target-blier", latin_key: "latin-aries", abbr: Some("Ari"), parent_key: None, season_key: "season-autumn", dec: 2000i32 },
        Target { target_type: TargetType::Constellation, id: None, name_key: "target-cocher", latin_key: "latin-auriga", abbr: Some("Aur"), parent_key: None, season_key: "season-winter", dec: 4200i32 },
        Target { target_type: TargetType::Constellation, id: None, name_key: "target-bouvier", latin_key: "latin-bootes", abbr: Some("Boo"), parent_key: None, season_key: "season-spring", dec: 2800i32 },
        Target { target_type: TargetType::Constellation, id: None, name_key: "target-girafe", latin_key: "latin-camelopardalis", abbr: Some("Cam"), parent_key: None, season_key: "season-circumpolar-n", dec: 7000i32 },
        Target { target_type: TargetType::Constellation, id: None, name_key: "target-cancer", latin_key: "latin-cancer", abbr: Some("Cnc"), parent_key: None, season_key: "season-spring", dec: 2000i32 },
        Target { target_type: TargetType::Constellation, id: None, name_key: "target-chiens-de-chasse", latin_key: "latin-canes-venatici", abbr: Some("CVn"), parent_key: None, season_key: "season-spring", dec: 4000i32 },
        Target { target_type: TargetType::Constellation, id: None, name_key: "target-petit-chien", latin_key: "latin-canis-minor", abbr: Some("CMi"), parent_key: None, season_key: "season-winter", dec: 500i32 },
        Target { target_type: TargetType::Constellation, id: None, name_key: "target-cassiope", latin_key: "latin-cassiopeia", abbr: Some("Cas"), parent_key: None, season_key: "season-circumpolar-n", dec: 6000i32 },
        Target { target_type: TargetType::Constellation, id: None, name_key: "target-cphe", latin_key: "latin-cepheus", abbr: Some("Cep"), parent_key: None, season_key: "season-circumpolar-n", dec: 7000i32 },
        Target { target_type: TargetType::Constellation, id: None, name_key: "target-chevelure-de-brnice", latin_key: "latin-coma-berenices", abbr: Some("Com"), parent_key: None, season_key: "season-spring", dec: 2300i32 },
        Target { target_type: TargetType::Constellation, id: None, name_key: "target-couronne-borale", latin_key: "latin-corona-borealis", abbr: Some("CrB"), parent_key: None, season_key: "season-spring", dec: 3000i32 },
        Target { target_type: TargetType::Constellation, id: None, name_key: "target-cygne", latin_key: "latin-cygnus", abbr: Some("Cyg"), parent_key: None, season_key: "season-summer", dec: 4200i32 },
        Target { target_type: TargetType::Constellation, id: None, name_key: "target-dauphin", latin_key: "latin-delphinus", abbr: Some("Del"), parent_key: None, season_key: "season-summer", dec: 1200i32 },
        Target { target_type: TargetType::Constellation, id: None, name_key: "target-dragon", latin_key: "latin-draco", abbr: Some("Dra"), parent_key: None, season_key: "season-circumpolar-n", dec: 6500i32 },
        Target { target_type: TargetType::Constellation, id: None, name_key: "target-petit-cheval", latin_key: "latin-equuleus", abbr: Some("Equ"), parent_key: None, season_key: "season-autumn", dec: 700i32 },
        Target { target_type: TargetType::Constellation, id: None, name_key: "target-gmeaux", latin_key: "latin-gemini", abbr: Some("Gem"), parent_key: None, season_key: "season-winter", dec: 2200i32 },
        Target { target_type: TargetType::Constellation, id: None, name_key: "target-hercule", latin_key: "latin-hercules", abbr: Some("Her"), parent_key: None, season_key: "season-summer", dec: 2700i32 },
        Target { target_type: TargetType::Constellation, id: None, name_key: "target-lzard", latin_key: "latin-lacerta", abbr: Some("Lac"), parent_key: None, season_key: "season-autumn", dec: 4500i32 },
        Target { target_type: TargetType::Constellation, id: None, name_key: "target-lion", latin_key: "latin-leo", abbr: Some("Leo"), parent_key: None, season_key: "season-spring", dec: 1500i32 },
        Target { target_type: TargetType::Constellation, id: None, name_key: "target-petit-lion", latin_key: "latin-leo-minor", abbr: Some("LMi"), parent_key: None, season_key: "season-spring", dec: 3500i32 },
        Target { target_type: TargetType::Constellation, id: None, name_key: "target-lynx", latin_key: "latin-lynx", abbr: Some("Lyn"), parent_key: None, season_key: "season-winter", dec: 4500i32 },
        Target { target_type: TargetType::Constellation, id: None, name_key: "target-lyre", latin_key: "latin-lyra", abbr: Some("Lyr"), parent_key: None, season_key: "season-summer", dec: 3800i32 },
        Target { target_type: TargetType::Constellation, id: None, name_key: "target-licorne", latin_key: "latin-monoceros", abbr: Some("Mon"), parent_key: None, season_key: "season-winter", dec: -300i32 },
        Target { target_type: TargetType::Constellation, id: None, name_key: "target-ophiuchus", latin_key: "latin-ophiuchus", abbr: Some("Oph"), parent_key: None, season_key: "season-summer", dec: -700i32 },
        Target { target_type: TargetType::Constellation, id: None, name_key: "target-orion", latin_key: "latin-orion", abbr: Some("Ori"), parent_key: None, season_key: "season-winter", dec: 500i32 },
        Target { target_type: TargetType::Constellation, id: None, name_key: "target-pgase", latin_key: "latin-pegasus", abbr: Some("Peg"), parent_key: None, season_key: "season-autumn", dec: 2000i32 },
        Target { target_type: TargetType::Constellation, id: None, name_key: "target-perse", latin_key: "latin-perseus", abbr: Some("Per"), parent_key: None, season_key: "season-autumn", dec: 4500i32 },
        Target { target_type: TargetType::Constellation, id: None, name_key: "target-poissons", latin_key: "latin-pisces", abbr: Some("Psc"), parent_key: None, season_key: "season-autumn", dec: 1500i32 },
        Target { target_type: TargetType::Constellation, id: None, name_key: "target-flche", latin_key: "latin-sagitta", abbr: Some("Sge"), parent_key: None, season_key: "season-summer", dec: 1800i32 },
        Target { target_type: TargetType::Constellation, id: None, name_key: "target-serpent", latin_key: "latin-serpens", abbr: Some("Ser"), parent_key: None, season_key: "season-summer", dec: 0i32 },
        Target { target_type: TargetType::Constellation, id: None, name_key: "target-sextant", latin_key: "latin-sextans", abbr: Some("Sex"), parent_key: None, season_key: "season-spring", dec: -200i32 },
        Target { target_type: TargetType::Constellation, id: None, name_key: "target-taureau", latin_key: "latin-taurus", abbr: Some("Tau"), parent_key: None, season_key: "season-winter", dec: 1600i32 },
        Target { target_type: TargetType::Constellation, id: None, name_key: "target-triangle", latin_key: "latin-triangulum", abbr: Some("Tri"), parent_key: None, season_key: "season-autumn", dec: 3200i32 },
        Target { target_type: TargetType::Constellation, id: None, name_key: "target-grande-ourse", latin_key: "latin-ursa-major", abbr: Some("UMa"), parent_key: None, season_key: "season-circumpolar-n", dec: 5000i32 },
        Target { target_type: TargetType::Constellation, id: None, name_key: "target-petite-ourse", latin_key: "latin-ursa-minor", abbr: Some("UMi"), parent_key: None, season_key: "season-circumpolar-n", dec: 7500i32 },
        Target { target_type: TargetType::Constellation, id: None, name_key: "target-vierge", latin_key: "latin-virgo", abbr: Some("Vir"), parent_key: None, season_key: "season-spring", dec: 0i32 },
        Target { target_type: TargetType::Constellation, id: None, name_key: "target-petit-renard", latin_key: "latin-vulpecula", abbr: Some("Vul"), parent_key: None, season_key: "season-summer", dec: 2500i32 },
        Target { target_type: TargetType::Constellation, id: None, name_key: "target-machine-pneumatique", latin_key: "latin-antlia", abbr: Some("Ant"), parent_key: None, season_key: "season-spring", dec: -3500i32 },
        Target { target_type: TargetType::Constellation, id: None, name_key: "target-oiseau-de-paradis", latin_key: "latin-apus", abbr: Some("Aps"), parent_key: None, season_key: "season-circumpolar-s", dec: -7500i32 },
        Target { target_type: TargetType::Constellation, id: None, name_key: "target-autel", latin_key: "latin-ara", abbr: Some("Ara"), parent_key: None, season_key: "season-summer", dec: -5300i32 },
        Target { target_type: TargetType::Constellation, id: None, name_key: "target-burin", latin_key: "latin-caelum", abbr: Some("Cae"), parent_key: None, season_key: "season-winter", dec: -3800i32 },
        Target { target_type: TargetType::Constellation, id: None, name_key: "target-grand-chien", latin_key: "latin-canis-major", abbr: Some("CMa"), parent_key: None, season_key: "season-winter", dec: -2200i32 },
        Target { target_type: TargetType::Constellation, id: None, name_key: "target-capricorne", latin_key: "latin-capricornus", abbr: Some("Cap"), parent_key: None, season_key: "season-autumn", dec: -2000i32 },
        Target { target_type: TargetType::Constellation, id: None, name_key: "target-carne", latin_key: "latin-carina", abbr: Some("Car"), parent_key: None, season_key: "season-circumpolar-s", dec: -6000i32 },
        Target { target_type: TargetType::Constellation, id: None, name_key: "target-centaure", latin_key: "latin-centaurus", abbr: Some("Cen"), parent_key: None, season_key: "season-spring", dec: -4500i32 },
        Target { target_type: TargetType::Constellation, id: None, name_key: "target-baleine", latin_key: "latin-cetus", abbr: Some("Cet"), parent_key: None, season_key: "season-autumn", dec: -800i32 },
        Target { target_type: TargetType::Constellation, id: None, name_key: "target-camlon", latin_key: "latin-chamaeleon", abbr: Some("Cha"), parent_key: None, season_key: "season-circumpolar-s", dec: -7500i32 },
        Target { target_type: TargetType::Constellation, id: None, name_key: "target-circin", latin_key: "latin-circinus", abbr: Some("Cir"), parent_key: None, season_key: "season-circumpolar-s", dec: -6000i32 },
        Target { target_type: TargetType::Constellation, id: None, name_key: "target-colombe", latin_key: "latin-columba", abbr: Some("Col"), parent_key: None, season_key: "season-winter", dec: -3500i32 },
        Target { target_type: TargetType::Constellation, id: None, name_key: "target-couronne-australe", latin_key: "latin-corona-australis", abbr: Some("CrA"), parent_key: None, season_key: "season-summer", dec: -4000i32 },
        Target { target_type: TargetType::Constellation, id: None, name_key: "target-corbeau", latin_key: "latin-corvus", abbr: Some("Crv"), parent_key: None, season_key: "season-spring", dec: -1800i32 },
        Target { target_type: TargetType::Constellation, id: None, name_key: "target-coupe", latin_key: "latin-crater", abbr: Some("Crt"), parent_key: None, season_key: "season-spring", dec: -1500i32 },
        Target { target_type: TargetType::Constellation, id: None, name_key: "target-croix-du-sud", latin_key: "latin-crux", abbr: Some("Cru"), parent_key: None, season_key: "season-circumpolar-s", dec: -6000i32 },
        Target { target_type: TargetType::Constellation, id: None, name_key: "target-dorade", latin_key: "latin-dorado", abbr: Some("Dor"), parent_key: None, season_key: "season-circumpolar-s", dec: -6000i32 },
        Target { target_type: TargetType::Constellation, id: None, name_key: "target-ridan", latin_key: "latin-eridanus", abbr: Some("Eri"), parent_key: None, season_key: "season-winter", dec: -3000i32 },
        Target { target_type: TargetType::Constellation, id: None, name_key: "target-fourneau", latin_key: "latin-fornax", abbr: Some("For"), parent_key: None, season_key: "season-autumn", dec: -3000i32 },
        Target { target_type: TargetType::Constellation, id: None, name_key: "target-grue", latin_key: "latin-grus", abbr: Some("Gru"), parent_key: None, season_key: "season-autumn", dec: -4500i32 },
        Target { target_type: TargetType::Constellation, id: None, name_key: "target-horloge", latin_key: "latin-horologium", abbr: Some("Hor"), parent_key: None, season_key: "season-winter", dec: -5000i32 },
        Target { target_type: TargetType::Constellation, id: None, name_key: "target-hydre", latin_key: "latin-hydra", abbr: Some("Hya"), parent_key: None, season_key: "season-spring", dec: -2000i32 },
        Target { target_type: TargetType::Constellation, id: None, name_key: "target-hydre-mle", latin_key: "latin-hydrus", abbr: Some("Hyi"), parent_key: None, season_key: "season-circumpolar-s", dec: -7000i32 },
        Target { target_type: TargetType::Constellation, id: None, name_key: "target-indien", latin_key: "latin-indus", abbr: Some("Ind"), parent_key: None, season_key: "season-summer", dec: -5500i32 },
        Target { target_type: TargetType::Constellation, id: None, name_key: "target-livre", latin_key: "latin-lepus", abbr: Some("Lep"), parent_key: None, season_key: "season-winter", dec: -1800i32 },
        Target { target_type: TargetType::Constellation, id: None, name_key: "target-balance", latin_key: "latin-libra", abbr: Some("Lib"), parent_key: None, season_key: "season-spring", dec: -1500i32 },
        Target { target_type: TargetType::Constellation, id: None, name_key: "target-loup", latin_key: "latin-lupus", abbr: Some("Lup"), parent_key: None, season_key: "season-summer", dec: -4000i32 },
        Target { target_type: TargetType::Constellation, id: None, name_key: "target-table", latin_key: "latin-mensa", abbr: Some("Men"), parent_key: None, season_key: "season-circumpolar-s", dec: -7500i32 },
        Target { target_type: TargetType::Constellation, id: None, name_key: "target-microscope", latin_key: "latin-microscopium", abbr: Some("Mic"), parent_key: None, season_key: "season-autumn", dec: -3500i32 },
        Target { target_type: TargetType::Constellation, id: None, name_key: "target-mouche", latin_key: "latin-musca", abbr: Some("Mus"), parent_key: None, season_key: "season-circumpolar-s", dec: -7000i32 },
        Target { target_type: TargetType::Constellation, id: None, name_key: "target-rgle", latin_key: "latin-norma", abbr: Some("Nor"), parent_key: None, season_key: "season-summer", dec: -5000i32 },
        Target { target_type: TargetType::Constellation, id: None, name_key: "target-octant", latin_key: "latin-octans", abbr: Some("Oct"), parent_key: None, season_key: "season-circumpolar-s", dec: -8500i32 },
        Target { target_type: TargetType::Constellation, id: None, name_key: "target-paon", latin_key: "latin-pavo", abbr: Some("Pav"), parent_key: None, season_key: "season-circumpolar-s", dec: -6500i32 },
        Target { target_type: TargetType::Constellation, id: None, name_key: "target-phnix", latin_key: "latin-phoenix", abbr: Some("Phe"), parent_key: None, season_key: "season-autumn", dec: -4500i32 },
        Target { target_type: TargetType::Constellation, id: None, name_key: "target-peintre", latin_key: "latin-pictor", abbr: Some("Pic"), parent_key: None, season_key: "season-winter", dec: -5500i32 },
        Target { target_type: TargetType::Constellation, id: None, name_key: "target-poisson-austral", latin_key: "latin-piscis-austrinus", abbr: Some("PsA"), parent_key: None, season_key: "season-autumn", dec: -3000i32 },
        Target { target_type: TargetType::Constellation, id: None, name_key: "target-poupe", latin_key: "latin-puppis", abbr: Some("Pup"), parent_key: None, season_key: "season-winter", dec: -3000i32 },
        Target { target_type: TargetType::Constellation, id: None, name_key: "target-boussole", latin_key: "latin-pyxis", abbr: Some("Pyx"), parent_key: None, season_key: "season-spring", dec: -3000i32 },
        Target { target_type: TargetType::Constellation, id: None, name_key: "target-sagittaire", latin_key: "latin-sagittarius", abbr: Some("Sgr"), parent_key: None, season_key: "season-summer", dec: -2500i32 },
        Target { target_type: TargetType::Constellation, id: None, name_key: "target-scorpion", latin_key: "latin-scorpius", abbr: Some("Sco"), parent_key: None, season_key: "season-summer", dec: -3000i32 },
        Target { target_type: TargetType::Constellation, id: None, name_key: "target-sculpteur", latin_key: "latin-sculptor", abbr: Some("Scl"), parent_key: None, season_key: "season-autumn", dec: -3000i32 },
        Target { target_type: TargetType::Constellation, id: None, name_key: "target-cu-de-sobieski", latin_key: "latin-scutum", abbr: Some("Sct"), parent_key: None, season_key: "season-summer", dec: -1000i32 },
        Target { target_type: TargetType::Constellation, id: None, name_key: "target-tlescope", latin_key: "latin-telescopium", abbr: Some("Tel"), parent_key: None, season_key: "season-summer", dec: -5000i32 },
        Target { target_type: TargetType::Constellation, id: None, name_key: "target-triangle-austral", latin_key: "latin-triangulum-australe", abbr: Some("TrA"), parent_key: None, season_key: "season-circumpolar-s", dec: -6500i32 },
        Target { target_type: TargetType::Constellation, id: None, name_key: "target-toucan", latin_key: "latin-tucana", abbr: Some("Tuc"), parent_key: None, season_key: "season-circumpolar-s", dec: -6000i32 },
        Target { target_type: TargetType::Constellation, id: None, name_key: "target-voiles", latin_key: "latin-vela", abbr: Some("Vel"), parent_key: None, season_key: "season-spring", dec: -5000i32 },
        Target { target_type: TargetType::Constellation, id: None, name_key: "target-poisson-volant", latin_key: "latin-volans", abbr: Some("Vol"), parent_key: None, season_key: "season-circumpolar-s", dec: -7000i32 },
        Target { target_type: TargetType::Constellation, id: None, name_key: "target-rticule", latin_key: "latin-reticulum", abbr: Some("Ret"), parent_key: None, season_key: "season-circumpolar-s", dec: -6000i32 },
        Target { target_type: TargetType::Constellation, id: None, name_key: "target-burin", latin_key: "latin-caelum", abbr: Some("Cae"), parent_key: None, season_key: "season-winter", dec: -3800i32 },
        Target { target_type: TargetType::Messier, id: Some("M1"), name_key: "target-m1", latin_key: "latin-taurus", abbr: None, parent_key: Some("target-taureau"), season_key: "season-winter", dec: 2200i32 },
        Target { target_type: TargetType::Messier, id: Some("M2"), name_key: "target-m2", latin_key: "latin-aquarius", abbr: None, parent_key: Some("target-verseau"), season_key: "season-autumn", dec: -80i32 },
        Target { target_type: TargetType::Messier, id: Some("M3"), name_key: "target-m3", latin_key: "latin-canes-venatici", abbr: None, parent_key: Some("target-chiens-de-chasse"), season_key: "season-spring", dec: 2840i32 },
        Target { target_type: TargetType::Messier, id: Some("M4"), name_key: "target-m4", latin_key: "latin-scorpius", abbr: None, parent_key: Some("target-scorpion"), season_key: "season-summer", dec: -2650i32 },
        Target { target_type: TargetType::Messier, id: Some("M5"), name_key: "target-m5", latin_key: "latin-serpens", abbr: None, parent_key: Some("target-serpent"), season_key: "season-spring", dec: 210i32 },
        Target { target_type: TargetType::Messier, id: Some("M6"), name_key: "target-m6", latin_key: "latin-scorpius", abbr: None, parent_key: Some("target-scorpion"), season_key: "season-summer", dec: -3220i32 },
        Target { target_type: TargetType::Messier, id: Some("M7"), name_key: "target-m7", latin_key: "latin-scorpius", abbr: None, parent_key: Some("target-scorpion"), season_key: "season-summer", dec: -3480i32 },
        Target { target_type: TargetType::Messier, id: Some("M8"), name_key: "target-m8", latin_key: "latin-sagittarius", abbr: None, parent_key: Some("target-sagittaire"), season_key: "season-summer", dec: -2440i32 },
        Target { target_type: TargetType::Messier, id: Some("M9"), name_key: "target-m9", latin_key: "latin-ophiuchus", abbr: None, parent_key: Some("target-ophiuchus"), season_key: "season-summer", dec: -1850i32 },
        Target { target_type: TargetType::Messier, id: Some("M10"), name_key: "target-m10", latin_key: "latin-ophiuchus", abbr: None, parent_key: Some("target-ophiuchus"), season_key: "season-summer", dec: -410i32 },
        Target { target_type: TargetType::Messier, id: Some("M11"), name_key: "target-m11", latin_key: "latin-scutum", abbr: None, parent_key: Some("target-cu-de-sobieski"), season_key: "season-summer", dec: -630i32 },
        Target { target_type: TargetType::Messier, id: Some("M12"), name_key: "target-m12", latin_key: "latin-ophiuchus", abbr: None, parent_key: Some("target-ophiuchus"), season_key: "season-summer", dec: -200i32 },
        Target { target_type: TargetType::Messier, id: Some("M13"), name_key: "target-m13", latin_key: "latin-hercules", abbr: None, parent_key: Some("target-hercule"), season_key: "season-summer", dec: 3650i32 },
        Target { target_type: TargetType::Messier, id: Some("M14"), name_key: "target-m14", latin_key: "latin-ophiuchus", abbr: None, parent_key: Some("target-ophiuchus"), season_key: "season-summer", dec: -320i32 },
        Target { target_type: TargetType::Messier, id: Some("M15"), name_key: "target-m15", latin_key: "latin-pegasus", abbr: None, parent_key: Some("target-pgase"), season_key: "season-autumn", dec: 1220i32 },
        Target { target_type: TargetType::Messier, id: Some("M16"), name_key: "target-m16", latin_key: "latin-serpens", abbr: None, parent_key: Some("target-serpent"), season_key: "season-summer", dec: -1380i32 },
        Target { target_type: TargetType::Messier, id: Some("M17"), name_key: "target-m17", latin_key: "latin-sagittarius", abbr: None, parent_key: Some("target-sagittaire"), season_key: "season-summer", dec: -1620i32 },
        Target { target_type: TargetType::Messier, id: Some("M18"), name_key: "target-m18", latin_key: "latin-sagittarius", abbr: None, parent_key: Some("target-sagittaire"), season_key: "season-summer", dec: -1710i32 },
        Target { target_type: TargetType::Messier, id: Some("M19"), name_key: "target-m19", latin_key: "latin-ophiuchus", abbr: None, parent_key: Some("target-ophiuchus"), season_key: "season-summer", dec: -2630i32 },
        Target { target_type: TargetType::Messier, id: Some("M20"), name_key: "target-m20", latin_key: "latin-sagittarius", abbr: None, parent_key: Some("target-sagittaire"), season_key: "season-summer", dec: -2300i32 },
        Target { target_type: TargetType::Messier, id: Some("M21"), name_key: "target-m21", latin_key: "latin-sagittarius", abbr: None, parent_key: Some("target-sagittaire"), season_key: "season-summer", dec: -2250i32 },
        Target { target_type: TargetType::Messier, id: Some("M22"), name_key: "target-m22", latin_key: "latin-sagittarius", abbr: None, parent_key: Some("target-sagittaire"), season_key: "season-summer", dec: -2390i32 },
        Target { target_type: TargetType::Messier, id: Some("M23"), name_key: "target-m23", latin_key: "latin-sagittarius", abbr: None, parent_key: Some("target-sagittaire"), season_key: "season-summer", dec: -1900i32 },
        Target { target_type: TargetType::Messier, id: Some("M24"), name_key: "target-m24", latin_key: "latin-sagittarius", abbr: None, parent_key: Some("target-sagittaire"), season_key: "season-summer", dec: -1840i32 },
        Target { target_type: TargetType::Messier, id: Some("M25"), name_key: "target-m25", latin_key: "latin-sagittarius", abbr: None, parent_key: Some("target-sagittaire"), season_key: "season-summer", dec: -1910i32 },
        Target { target_type: TargetType::Messier, id: Some("M26"), name_key: "target-m26", latin_key: "latin-scutum", abbr: None, parent_key: Some("target-cu-de-sobieski"), season_key: "season-summer", dec: -940i32 },
        Target { target_type: TargetType::Messier, id: Some("M27"), name_key: "target-m27", latin_key: "latin-vulpecula", abbr: None, parent_key: Some("target-petit-renard"), season_key: "season-summer", dec: 2270i32 },
        Target { target_type: TargetType::Messier, id: Some("M28"), name_key: "target-m28", latin_key: "latin-sagittarius", abbr: None, parent_key: Some("target-sagittaire"), season_key: "season-summer", dec: -2490i32 },
        Target { target_type: TargetType::Messier, id: Some("M29"), name_key: "target-m29", latin_key: "latin-cygnus", abbr: None, parent_key: Some("target-cygne"), season_key: "season-summer", dec: 3850i32 },
        Target { target_type: TargetType::Messier, id: Some("M30"), name_key: "target-m30", latin_key: "latin-capricornus", abbr: None, parent_key: Some("target-capricorne"), season_key: "season-autumn", dec: -2320i32 },
        Target { target_type: TargetType::Messier, id: Some("M31"), name_key: "target-m31", latin_key: "latin-andromeda", abbr: None, parent_key: Some("target-andromde"), season_key: "season-autumn", dec: 4130i32 },
        Target { target_type: TargetType::Messier, id: Some("M32"), name_key: "target-m32", latin_key: "latin-andromeda", abbr: None, parent_key: Some("target-andromde"), season_key: "season-autumn", dec: 4090i32 },
        Target { target_type: TargetType::Messier, id: Some("M33"), name_key: "target-m33", latin_key: "latin-triangulum", abbr: None, parent_key: Some("target-triangle"), season_key: "season-autumn", dec: 3070i32 },
        Target { target_type: TargetType::Messier, id: Some("M34"), name_key: "target-m34", latin_key: "latin-perseus", abbr: None, parent_key: Some("target-perse"), season_key: "season-autumn", dec: 4280i32 },
        Target { target_type: TargetType::Messier, id: Some("M35"), name_key: "target-m35", latin_key: "latin-gemini", abbr: None, parent_key: Some("target-gmeaux"), season_key: "season-winter", dec: 2430i32 },
        Target { target_type: TargetType::Messier, id: Some("M36"), name_key: "target-m36", latin_key: "latin-auriga", abbr: None, parent_key: Some("target-cocher"), season_key: "season-winter", dec: 3410i32 },
        Target { target_type: TargetType::Messier, id: Some("M37"), name_key: "target-m37", latin_key: "latin-auriga", abbr: None, parent_key: Some("target-cocher"), season_key: "season-winter", dec: 3250i32 },
        Target { target_type: TargetType::Messier, id: Some("M38"), name_key: "target-m38", latin_key: "latin-auriga", abbr: None, parent_key: Some("target-cocher"), season_key: "season-winter", dec: 3580i32 },
        Target { target_type: TargetType::Messier, id: Some("M39"), name_key: "target-m39", latin_key: "latin-cygnus", abbr: None, parent_key: Some("target-cygne"), season_key: "season-summer", dec: 4840i32 },
        Target { target_type: TargetType::Messier, id: Some("M40"), name_key: "target-m40", latin_key: "latin-ursa-major", abbr: None, parent_key: Some("target-grande-ourse"), season_key: "season-spring", dec: 5810i32 },
        Target { target_type: TargetType::Messier, id: Some("M41"), name_key: "target-m41", latin_key: "latin-canis-major", abbr: None, parent_key: Some("target-grand-chien"), season_key: "season-winter", dec: -2070i32 },
        Target { target_type: TargetType::Messier, id: Some("M42"), name_key: "target-m42", latin_key: "latin-orion", abbr: None, parent_key: Some("target-orion"), season_key: "season-winter", dec: -540i32 },
        Target { target_type: TargetType::Messier, id: Some("M43"), name_key: "target-m43", latin_key: "latin-orion", abbr: None, parent_key: Some("target-orion"), season_key: "season-winter", dec: -530i32 },
        Target { target_type: TargetType::Messier, id: Some("M44"), name_key: "target-m44", latin_key: "latin-cancer", abbr: None, parent_key: Some("target-cancer"), season_key: "season-spring", dec: 1970i32 },
        Target { target_type: TargetType::Messier, id: Some("M45"), name_key: "target-m45", latin_key: "latin-taurus", abbr: None, parent_key: Some("target-taureau"), season_key: "season-winter", dec: 2410i32 },
        Target { target_type: TargetType::Messier, id: Some("M46"), name_key: "target-m46", latin_key: "latin-puppis", abbr: None, parent_key: Some("target-poupe"), season_key: "season-winter", dec: -1480i32 },
        Target { target_type: TargetType::Messier, id: Some("M47"), name_key: "target-m47", latin_key: "latin-puppis", abbr: None, parent_key: Some("target-poupe"), season_key: "season-winter", dec: -1440i32 },
        Target { target_type: TargetType::Messier, id: Some("M48"), name_key: "target-m48", latin_key: "latin-hydra", abbr: None, parent_key: Some("target-hydre"), season_key: "season-winter", dec: -580i32 },
        Target { target_type: TargetType::Messier, id: Some("M49"), name_key: "target-m49", latin_key: "latin-virgo", abbr: None, parent_key: Some("target-vierge"), season_key: "season-spring", dec: 800i32 },
        Target { target_type: TargetType::Messier, id: Some("M50"), name_key: "target-m50", latin_key: "latin-monoceros", abbr: None, parent_key: Some("target-licorne"), season_key: "season-winter", dec: -830i32 },
        Target { target_type: TargetType::Messier, id: Some("M51"), name_key: "target-m51", latin_key: "latin-canes-venatici", abbr: None, parent_key: Some("target-chiens-de-chasse"), season_key: "season-spring", dec: 4720i32 },
        Target { target_type: TargetType::Messier, id: Some("M52"), name_key: "target-m52", latin_key: "latin-cassiopeia", abbr: None, parent_key: Some("target-cassiope"), season_key: "season-autumn", dec: 6160i32 },
        Target { target_type: TargetType::Messier, id: Some("M53"), name_key: "target-m53", latin_key: "latin-coma-berenices", abbr: None, parent_key: Some("target-chevelure-de-brnice"), season_key: "season-spring", dec: 1820i32 },
        Target { target_type: TargetType::Messier, id: Some("M54"), name_key: "target-m54", latin_key: "latin-sagittarius", abbr: None, parent_key: Some("target-sagittaire"), season_key: "season-summer", dec: -3050i32 },
        Target { target_type: TargetType::Messier, id: Some("M55"), name_key: "target-m55", latin_key: "latin-sagittarius", abbr: None, parent_key: Some("target-sagittaire"), season_key: "season-summer", dec: -3100i32 },
        Target { target_type: TargetType::Messier, id: Some("M56"), name_key: "target-m56", latin_key: "latin-lyra", abbr: None, parent_key: Some("target-lyre"), season_key: "season-summer", dec: 3020i32 },
        Target { target_type: TargetType::Messier, id: Some("M57"), name_key: "target-m57", latin_key: "latin-lyra", abbr: None, parent_key: Some("target-lyre"), season_key: "season-summer", dec: 3300i32 },
        Target { target_type: TargetType::Messier, id: Some("M58"), name_key: "target-m58", latin_key: "latin-virgo", abbr: None, parent_key: Some("target-vierge"), season_key: "season-spring", dec: 1180i32 },
        Target { target_type: TargetType::Messier, id: Some("M59"), name_key: "target-m59", latin_key: "latin-virgo", abbr: None, parent_key: Some("target-vierge"), season_key: "season-spring", dec: 1160i32 },
        Target { target_type: TargetType::Messier, id: Some("M60"), name_key: "target-m60", latin_key: "latin-virgo", abbr: None, parent_key: Some("target-vierge"), season_key: "season-spring", dec: 1150i32 },
        Target { target_type: TargetType::Messier, id: Some("M61"), name_key: "target-m61", latin_key: "latin-virgo", abbr: None, parent_key: Some("target-vierge"), season_key: "season-spring", dec: 450i32 },
        Target { target_type: TargetType::Messier, id: Some("M62"), name_key: "target-m62", latin_key: "latin-ophiuchus", abbr: None, parent_key: Some("target-ophiuchus"), season_key: "season-summer", dec: -3010i32 },
        Target { target_type: TargetType::Messier, id: Some("M63"), name_key: "target-m63", latin_key: "latin-canes-venatici", abbr: None, parent_key: Some("target-chiens-de-chasse"), season_key: "season-spring", dec: 4200i32 },
        Target { target_type: TargetType::Messier, id: Some("M64"), name_key: "target-m64", latin_key: "latin-coma-berenices", abbr: None, parent_key: Some("target-chevelure-de-brnice"), season_key: "season-spring", dec: 2170i32 },
        Target { target_type: TargetType::Messier, id: Some("M65"), name_key: "target-m65", latin_key: "latin-leo", abbr: None, parent_key: Some("target-lion"), season_key: "season-spring", dec: 1310i32 },
        Target { target_type: TargetType::Messier, id: Some("M66"), name_key: "target-m66", latin_key: "latin-leo", abbr: None, parent_key: Some("target-lion"), season_key: "season-spring", dec: 1300i32 },
        Target { target_type: TargetType::Messier, id: Some("M67"), name_key: "target-m67", latin_key: "latin-cancer", abbr: None, parent_key: Some("target-cancer"), season_key: "season-spring", dec: 1180i32 },
        Target { target_type: TargetType::Messier, id: Some("M68"), name_key: "target-m68", latin_key: "latin-hydra", abbr: None, parent_key: Some("target-hydre"), season_key: "season-spring", dec: -2670i32 },
        Target { target_type: TargetType::Messier, id: Some("M69"), name_key: "target-m69", latin_key: "latin-sagittarius", abbr: None, parent_key: Some("target-sagittaire"), season_key: "season-summer", dec: -3230i32 },
        Target { target_type: TargetType::Messier, id: Some("M70"), name_key: "target-m70", latin_key: "latin-sagittarius", abbr: None, parent_key: Some("target-sagittaire"), season_key: "season-summer", dec: -3230i32 },
        Target { target_type: TargetType::Messier, id: Some("M71"), name_key: "target-m71", latin_key: "latin-sagitta", abbr: None, parent_key: Some("target-flche"), season_key: "season-summer", dec: 1880i32 },
        Target { target_type: TargetType::Messier, id: Some("M72"), name_key: "target-m72", latin_key: "latin-aquarius", abbr: None, parent_key: Some("target-verseau"), season_key: "season-autumn", dec: -1250i32 },
        Target { target_type: TargetType::Messier, id: Some("M73"), name_key: "target-m73", latin_key: "latin-aquarius", abbr: None, parent_key: Some("target-verseau"), season_key: "season-autumn", dec: -1260i32 },
        Target { target_type: TargetType::Messier, id: Some("M74"), name_key: "target-m74", latin_key: "latin-pisces", abbr: None, parent_key: Some("target-poissons"), season_key: "season-autumn", dec: 1580i32 },
        Target { target_type: TargetType::Messier, id: Some("M75"), name_key: "target-m75", latin_key: "latin-sagittarius", abbr: None, parent_key: Some("target-sagittaire"), season_key: "season-summer", dec: -2190i32 },
        Target { target_type: TargetType::Messier, id: Some("M76"), name_key: "target-m76", latin_key: "latin-perseus", abbr: None, parent_key: Some("target-perse"), season_key: "season-autumn", dec: 5160i32 },
        Target { target_type: TargetType::Messier, id: Some("M77"), name_key: "target-m77", latin_key: "latin-cetus", abbr: None, parent_key: Some("target-baleine"), season_key: "season-autumn", dec: 0i32 },
        Target { target_type: TargetType::Messier, id: Some("M78"), name_key: "target-m78", latin_key: "latin-orion", abbr: None, parent_key: Some("target-orion"), season_key: "season-winter", dec: 10i32 },
        Target { target_type: TargetType::Messier, id: Some("M79"), name_key: "target-m79", latin_key: "latin-lepus", abbr: None, parent_key: Some("target-livre"), season_key: "season-winter", dec: -2450i32 },
        Target { target_type: TargetType::Messier, id: Some("M80"), name_key: "target-m80", latin_key: "latin-scorpius", abbr: None, parent_key: Some("target-scorpion"), season_key: "season-summer", dec: -2300i32 },
        Target { target_type: TargetType::Messier, id: Some("M81"), name_key: "target-m81", latin_key: "latin-ursa-major", abbr: None, parent_key: Some("target-grande-ourse"), season_key: "season-spring", dec: 6910i32 },
        Target { target_type: TargetType::Messier, id: Some("M82"), name_key: "target-m82", latin_key: "latin-ursa-major", abbr: None, parent_key: Some("target-grande-ourse"), season_key: "season-spring", dec: 6970i32 },
        Target { target_type: TargetType::Messier, id: Some("M83"), name_key: "target-m83", latin_key: "latin-hydra", abbr: None, parent_key: Some("target-hydre"), season_key: "season-spring", dec: -2990i32 },
        Target { target_type: TargetType::Messier, id: Some("M84"), name_key: "target-m84", latin_key: "latin-virgo", abbr: None, parent_key: Some("target-vierge"), season_key: "season-spring", dec: 1290i32 },
        Target { target_type: TargetType::Messier, id: Some("M85"), name_key: "target-m85", latin_key: "latin-coma-berenices", abbr: None, parent_key: Some("target-chevelure-de-brnice"), season_key: "season-spring", dec: 1820i32 },
        Target { target_type: TargetType::Messier, id: Some("M86"), name_key: "target-m86", latin_key: "latin-virgo", abbr: None, parent_key: Some("target-vierge"), season_key: "season-spring", dec: 1290i32 },
        Target { target_type: TargetType::Messier, id: Some("M87"), name_key: "target-m87", latin_key: "latin-virgo", abbr: None, parent_key: Some("target-vierge"), season_key: "season-spring", dec: 1240i32 },
        Target { target_type: TargetType::Messier, id: Some("M88"), name_key: "target-m88", latin_key: "latin-coma-berenices", abbr: None, parent_key: Some("target-chevelure-de-brnice"), season_key: "season-spring", dec: 1440i32 },
        Target { target_type: TargetType::Messier, id: Some("M89"), name_key: "target-m89", latin_key: "latin-virgo", abbr: None, parent_key: Some("target-vierge"), season_key: "season-spring", dec: 1260i32 },
        Target { target_type: TargetType::Messier, id: Some("M90"), name_key: "target-m90", latin_key: "latin-virgo", abbr: None, parent_key: Some("target-vierge"), season_key: "season-spring", dec: 1320i32 },
        Target { target_type: TargetType::Messier, id: Some("M91"), name_key: "target-m91", latin_key: "latin-coma-berenices", abbr: None, parent_key: Some("target-chevelure-de-brnice"), season_key: "season-spring", dec: 1450i32 },
        Target { target_type: TargetType::Messier, id: Some("M92"), name_key: "target-m92", latin_key: "latin-hercules", abbr: None, parent_key: Some("target-hercule"), season_key: "season-summer", dec: 4310i32 },
        Target { target_type: TargetType::Messier, id: Some("M93"), name_key: "target-m93", latin_key: "latin-puppis", abbr: None, parent_key: Some("target-poupe"), season_key: "season-winter", dec: -2380i32 },
        Target { target_type: TargetType::Messier, id: Some("M94"), name_key: "target-m94", latin_key: "latin-canes-venatici", abbr: None, parent_key: Some("target-chiens-de-chasse"), season_key: "season-spring", dec: 4110i32 },
        Target { target_type: TargetType::Messier, id: Some("M95"), name_key: "target-m95", latin_key: "latin-leo", abbr: None, parent_key: Some("target-lion"), season_key: "season-spring", dec: 1170i32 },
        Target { target_type: TargetType::Messier, id: Some("M96"), name_key: "target-m96", latin_key: "latin-leo", abbr: None, parent_key: Some("target-lion"), season_key: "season-spring", dec: 1180i32 },
        Target { target_type: TargetType::Messier, id: Some("M97"), name_key: "target-m97", latin_key: "latin-ursa-major", abbr: None, parent_key: Some("target-grande-ourse"), season_key: "season-spring", dec: 5500i32 },
        Target { target_type: TargetType::Messier, id: Some("M98"), name_key: "target-m98", latin_key: "latin-coma-berenices", abbr: None, parent_key: Some("target-chevelure-de-brnice"), season_key: "season-spring", dec: 1490i32 },
        Target { target_type: TargetType::Messier, id: Some("M99"), name_key: "target-m99", latin_key: "latin-coma-berenices", abbr: None, parent_key: Some("target-chevelure-de-brnice"), season_key: "season-spring", dec: 1440i32 },
        Target { target_type: TargetType::Messier, id: Some("M100"), name_key: "target-m100", latin_key: "latin-coma-berenices", abbr: None, parent_key: Some("target-chevelure-de-brnice"), season_key: "season-spring", dec: 1580i32 },
        Target { target_type: TargetType::Messier, id: Some("M101"), name_key: "target-m101", latin_key: "latin-ursa-major", abbr: None, parent_key: Some("target-grande-ourse"), season_key: "season-spring", dec: 5440i32 },
        Target { target_type: TargetType::Messier, id: Some("M102"), name_key: "target-m102", latin_key: "latin-draco", abbr: None, parent_key: Some("target-dragon"), season_key: "season-circumpolar-n", dec: 5580i32 },
        Target { target_type: TargetType::Messier, id: Some("M103"), name_key: "target-m103", latin_key: "latin-cassiopeia", abbr: None, parent_key: Some("target-cassiope"), season_key: "season-autumn", dec: 6070i32 },
        Target { target_type: TargetType::Messier, id: Some("M104"), name_key: "target-m104", latin_key: "latin-virgo", abbr: None, parent_key: Some("target-vierge"), season_key: "season-spring", dec: -1160i32 },
        Target { target_type: TargetType::Messier, id: Some("M105"), name_key: "target-m105", latin_key: "latin-leo", abbr: None, parent_key: Some("target-lion"), season_key: "season-spring", dec: 1260i32 },
        Target { target_type: TargetType::Messier, id: Some("M106"), name_key: "target-m106", latin_key: "latin-canes-venatici", abbr: None, parent_key: Some("target-chiens-de-chasse"), season_key: "season-spring", dec: 4730i32 },
        Target { target_type: TargetType::Messier, id: Some("M107"), name_key: "target-m107", latin_key: "latin-ophiuchus", abbr: None, parent_key: Some("target-ophiuchus"), season_key: "season-summer", dec: -1300i32 },
        Target { target_type: TargetType::Messier, id: Some("M108"), name_key: "target-m108", latin_key: "latin-ursa-major", abbr: None, parent_key: Some("target-grande-ourse"), season_key: "season-spring", dec: 5340i32 },
        Target { target_type: TargetType::Messier, id: Some("M109"), name_key: "target-m109", latin_key: "latin-ursa-major", abbr: None, parent_key: Some("target-grande-ourse"), season_key: "season-spring", dec: 5340i32 },
        Target { target_type: TargetType::Messier, id: Some("M110"), name_key: "target-m110", latin_key: "latin-andromeda", abbr: None, parent_key: Some("target-andromde"), season_key: "season-autumn", dec: 4170i32 },
        Target { target_type: TargetType::Galaxy, id: Some("M31"), name_key: "target-m31", latin_key: "latin-andromeda", abbr: None, parent_key: Some("target-andromde"), season_key: "season-autumn", dec: 4126i32 },
        Target { target_type: TargetType::Galaxy, id: Some("M33"), name_key: "target-m33", latin_key: "latin-triangulum", abbr: None, parent_key: Some("target-triangle"), season_key: "season-autumn", dec: 3066i32 },
        Target { target_type: TargetType::Galaxy, id: Some("M51"), name_key: "target-m51", latin_key: "latin-canes-venatici", abbr: Some("NGC 5194"), parent_key: Some("target-chiens-de-chasse"), season_key: "season-spring", dec: 4719i32 },
        Target { target_type: TargetType::Galaxy, id: Some("M81"), name_key: "target-m81", latin_key: "latin-ursa-major", abbr: None, parent_key: Some("target-grande-ourse"), season_key: "season-spring", dec: 6906i32 },
        Target { target_type: TargetType::Galaxy, id: Some("M82"), name_key: "target-m82", latin_key: "latin-ursa-major", abbr: None, parent_key: Some("target-grande-ourse"), season_key: "season-spring", dec: 6968i32 },
        Target { target_type: TargetType::Galaxy, id: Some("M101"), name_key: "target-m101", latin_key: "latin-ursa-major", abbr: None, parent_key: Some("target-grande-ourse"), season_key: "season-spring", dec: 5435i32 },
        Target { target_type: TargetType::Galaxy, id: Some("M63"), name_key: "target-m63", latin_key: "latin-canes-venatici", abbr: None, parent_key: Some("target-chiens-de-chasse"), season_key: "season-spring", dec: 4203i32 },
        Target { target_type: TargetType::Galaxy, id: Some("M64"), name_key: "target-m64", latin_key: "latin-coma-berenices", abbr: None, parent_key: Some("target-chevelure-de-brnice"), season_key: "season-spring", dec: 2168i32 },
        Target { target_type: TargetType::Galaxy, id: Some("NGC 4565"), name_key: "target-ngc-4565", latin_key: "latin-coma-berenices", abbr: None, parent_key: Some("target-chevelure-de-brnice"), season_key: "season-spring", dec: 2598i32 },
        Target { target_type: TargetType::Galaxy, id: Some("M104"), name_key: "target-m104", latin_key: "latin-virgo", abbr: None, parent_key: Some("target-vierge"), season_key: "season-spring", dec: -1162i32 },
        Target { target_type: TargetType::Galaxy, id: Some("LMC"), name_key: "target-lmc", latin_key: "latin-dorado", abbr: None, parent_key: Some("target-dorade"), season_key: "season-circumpolar-s", dec: -6975i32 },
        Target { target_type: TargetType::Galaxy, id: Some("SMC"), name_key: "target-smc", latin_key: "latin-tucana", abbr: None, parent_key: Some("target-toucan"), season_key: "season-circumpolar-s", dec: -7280i32 },
        Target { target_type: TargetType::Galaxy, id: Some("NGC 5128"), name_key: "target-ngc-5128", latin_key: "latin-centaurus", abbr: None, parent_key: Some("target-centaure"), season_key: "season-spring", dec: -4301i32 },
        Target { target_type: TargetType::Galaxy, id: Some("M83"), name_key: "target-m83", latin_key: "latin-hydra", abbr: None, parent_key: Some("target-hydre"), season_key: "season-spring", dec: -2986i32 },
        Target { target_type: TargetType::Galaxy, id: Some("NGC 253"), name_key: "target-ngc-253", latin_key: "latin-sculptor", abbr: None, parent_key: Some("target-sculpteur"), season_key: "season-autumn", dec: -2529i32 },
        Target { target_type: TargetType::Galaxy, id: Some("NGC 300"), name_key: "target-ngc-300", latin_key: "latin-sculptor", abbr: None, parent_key: Some("target-sculpteur"), season_key: "season-autumn", dec: -3768i32 },
        Target { target_type: TargetType::Galaxy, id: Some("NGC 4945"), name_key: "target-ngc-4945", latin_key: "latin-centaurus", abbr: None, parent_key: Some("target-centaure"), season_key: "season-spring", dec: -4947i32 },
        Target { target_type: TargetType::Galaxy, id: Some("NGC 1316"), name_key: "target-ngc-1316", latin_key: "latin-fornax", abbr: None, parent_key: Some("target-fourneau"), season_key: "season-autumn", dec: -3720i32 },
        Target { target_type: TargetType::Galaxy, id: Some("M65"), name_key: "target-m65", latin_key: "latin-leo", abbr: None, parent_key: Some("target-lion"), season_key: "season-spring", dec: 1309i32 },
        Target { target_type: TargetType::Galaxy, id: Some("M66"), name_key: "target-m66", latin_key: "latin-leo", abbr: None, parent_key: Some("target-lion"), season_key: "season-spring", dec: 1299i32 },
        Target { target_type: TargetType::Galaxy, id: Some("NGC 3628"), name_key: "target-ngc-3628", latin_key: "latin-leo", abbr: None, parent_key: Some("target-lion"), season_key: "season-spring", dec: 1359i32 },
        Target { target_type: TargetType::Galaxy, id: Some("M87"), name_key: "target-m87", latin_key: "latin-virgo", abbr: None, parent_key: Some("target-vierge"), season_key: "season-spring", dec: 1239i32 },
        Target { target_type: TargetType::Galaxy, id: Some("NGC 4038"), name_key: "target-ngc-4038", latin_key: "latin-corvus", abbr: None, parent_key: Some("target-corbeau"), season_key: "season-spring", dec: -1887i32 },
        Target { target_type: TargetType::Nebula, id: Some("M42"), name_key: "target-m42", latin_key: "latin-orion", abbr: None, parent_key: Some("target-orion"), season_key: "season-winter", dec: -539i32 },
        Target { target_type: TargetType::Nebula, id: Some("IC 434"), name_key: "target-ic-434", latin_key: "latin-orion", abbr: None, parent_key: Some("target-orion"), season_key: "season-winter", dec: -245i32 },
        Target { target_type: TargetType::Nebula, id: Some("NGC 2024"), name_key: "target-ngc-2024", latin_key: "latin-orion", abbr: None, parent_key: Some("target-orion"), season_key: "season-winter", dec: -186i32 },
        Target { target_type: TargetType::Nebula, id: Some("Sh2-276"), name_key: "target-sh2-276", latin_key: "latin-orion", abbr: None, parent_key: Some("target-orion"), season_key: "season-winter", dec: -100i32 },
        Target { target_type: TargetType::Nebula, id: Some("IC 2118"), name_key: "target-ic-2118", latin_key: "latin-eridanus", abbr: None, parent_key: Some("target-ridan"), season_key: "season-winter", dec: -725i32 },
        Target { target_type: TargetType::Nebula, id: Some("NGC 2237"), name_key: "target-ngc-2237", latin_key: "latin-monoceros", abbr: None, parent_key: Some("target-licorne"), season_key: "season-winter", dec: 497i32 },
        Target { target_type: TargetType::Nebula, id: Some("NGC 2264"), name_key: "target-ngc-2264", latin_key: "latin-monoceros", abbr: None, parent_key: Some("target-licorne"), season_key: "season-winter", dec: 989i32 },
        Target { target_type: TargetType::Nebula, id: Some("IC 405"), name_key: "target-ic-405", latin_key: "latin-auriga", abbr: None, parent_key: Some("target-cocher"), season_key: "season-winter", dec: 3435i32 },
        Target { target_type: TargetType::Nebula, id: Some("IC 443"), name_key: "target-ic-443", latin_key: "latin-gemini", abbr: None, parent_key: Some("target-gmeaux"), season_key: "season-winter", dec: 2247i32 },
        Target { target_type: TargetType::Nebula, id: Some("NGC 2174"), name_key: "target-ngc-2174", latin_key: "latin-orion", abbr: None, parent_key: Some("target-orion"), season_key: "season-winter", dec: 2050i32 },
        Target { target_type: TargetType::Nebula, id: Some("NGC 1499"), name_key: "target-ngc-1499", latin_key: "latin-perseus", abbr: None, parent_key: Some("target-perse"), season_key: "season-winter", dec: 3642i32 },
        Target { target_type: TargetType::Nebula, id: Some("NGC 3372"), name_key: "target-ngc-3372", latin_key: "latin-carina", abbr: None, parent_key: Some("target-carne"), season_key: "season-spring", dec: -5987i32 },
        Target { target_type: TargetType::Nebula, id: Some("IC 2944"), name_key: "target-ic-2944", latin_key: "latin-centaurus", abbr: None, parent_key: Some("target-centaure"), season_key: "season-spring", dec: -6302i32 },
        Target { target_type: TargetType::Nebula, id: Some("NGC 3576"), name_key: "target-ngc-3576", latin_key: "latin-carina", abbr: None, parent_key: Some("target-carne"), season_key: "season-spring", dec: -6130i32 },
        Target { target_type: TargetType::Nebula, id: Some("M97"), name_key: "target-m97", latin_key: "latin-ursa-major", abbr: None, parent_key: Some("target-grande-ourse"), season_key: "season-spring", dec: 5502i32 },
        Target { target_type: TargetType::Nebula, id: Some("NGC 3242"), name_key: "target-ngc-3242", latin_key: "latin-hydra", abbr: None, parent_key: Some("target-hydre"), season_key: "season-spring", dec: -1863i32 },
        Target { target_type: TargetType::Nebula, id: Some("M16"), name_key: "target-m16", latin_key: "latin-serpens", abbr: None, parent_key: Some("target-serpent"), season_key: "season-spring", dec: -1381i32 },
        Target { target_type: TargetType::Nebula, id: Some("M8"), name_key: "target-m8", latin_key: "latin-sagittarius", abbr: None, parent_key: Some("target-sagittaire"), season_key: "season-summer", dec: -2438i32 },
        Target { target_type: TargetType::Nebula, id: Some("M20"), name_key: "target-m20", latin_key: "latin-sagittarius", abbr: None, parent_key: Some("target-sagittaire"), season_key: "season-summer", dec: -2303i32 },
        Target { target_type: TargetType::Nebula, id: Some("M16"), name_key: "target-m16", latin_key: "latin-serpens", abbr: None, parent_key: Some("target-serpent"), season_key: "season-summer", dec: -1380i32 },
        Target { target_type: TargetType::Nebula, id: Some("M17"), name_key: "target-m17", latin_key: "latin-sagittarius", abbr: None, parent_key: Some("target-sagittaire"), season_key: "season-summer", dec: -1618i32 },
        Target { target_type: TargetType::Nebula, id: Some("IC 4604"), name_key: "target-ic-4604", latin_key: "latin-ophiuchus", abbr: None, parent_key: Some("target-ophiuchus"), season_key: "season-summer", dec: -2435i32 },
        Target { target_type: TargetType::Nebula, id: Some("NGC 6357"), name_key: "target-ngc-6357", latin_key: "latin-scorpius", abbr: None, parent_key: Some("target-scorpion"), season_key: "season-summer", dec: -3420i32 },
        Target { target_type: TargetType::Nebula, id: Some("NGC 6334"), name_key: "target-ngc-6334", latin_key: "latin-scorpius", abbr: None, parent_key: Some("target-scorpion"), season_key: "season-summer", dec: -3595i32 },
        Target { target_type: TargetType::Nebula, id: Some("NGC 7000"), name_key: "target-ngc-7000", latin_key: "latin-cygnus", abbr: None, parent_key: Some("target-cygne"), season_key: "season-summer", dec: 4433i32 },
        Target { target_type: TargetType::Nebula, id: Some("IC 5070"), name_key: "target-ic-5070", latin_key: "latin-cygnus", abbr: None, parent_key: Some("target-cygne"), season_key: "season-summer", dec: 4413i32 },
        Target { target_type: TargetType::Nebula, id: Some("NGC 6960"), name_key: "target-ngc-6960", latin_key: "latin-cygnus", abbr: None, parent_key: Some("target-cygne"), season_key: "season-summer", dec: 3070i32 },
        Target { target_type: TargetType::Nebula, id: Some("NGC 6992"), name_key: "target-ngc-6992", latin_key: "latin-cygnus", abbr: None, parent_key: Some("target-cygne"), season_key: "season-summer", dec: 3170i32 },
        Target { target_type: TargetType::Nebula, id: Some("NGC 6888"), name_key: "target-ngc-6888", latin_key: "latin-cygnus", abbr: None, parent_key: Some("target-cygne"), season_key: "season-summer", dec: 3835i32 },
        Target { target_type: TargetType::Nebula, id: Some("IC 1318"), name_key: "target-ic-1318", latin_key: "latin-cygnus", abbr: None, parent_key: Some("target-cygne"), season_key: "season-summer", dec: 4025i32 },
        Target { target_type: TargetType::Nebula, id: Some("LDN 673"), name_key: "target-ldn-673", latin_key: "latin-aquila", abbr: None, parent_key: Some("target-aigle"), season_key: "season-summer", dec: 100i32 },
        Target { target_type: TargetType::Nebula, id: Some("IC 1805"), name_key: "target-ic-1805", latin_key: "latin-cassiopeia", abbr: None, parent_key: Some("target-cassiope"), season_key: "season-autumn", dec: 6145i32 },
        Target { target_type: TargetType::Nebula, id: Some("IC 1848"), name_key: "target-ic-1848", latin_key: "latin-cassiopeia", abbr: None, parent_key: Some("target-cassiope"), season_key: "season-autumn", dec: 6040i32 },
        Target { target_type: TargetType::Nebula, id: Some("IC 1396"), name_key: "target-ic-1396", latin_key: "latin-cepheus", abbr: None, parent_key: Some("target-cphe"), season_key: "season-autumn", dec: 5750i32 },
        Target { target_type: TargetType::Nebula, id: Some("NGC 281"), name_key: "target-ngc-281", latin_key: "latin-cassiopeia", abbr: None, parent_key: Some("target-cassiope"), season_key: "season-autumn", dec: 5662i32 },
        Target { target_type: TargetType::Nebula, id: Some("NGC 7635"), name_key: "target-ngc-7635", latin_key: "latin-cassiopeia", abbr: None, parent_key: Some("target-cassiope"), season_key: "season-autumn", dec: 6120i32 },
        Target { target_type: TargetType::Nebula, id: Some("NGC 7023"), name_key: "target-ngc-7023", latin_key: "latin-cepheus", abbr: None, parent_key: Some("target-cphe"), season_key: "season-autumn", dec: 6816i32 },
        Target { target_type: TargetType::Nebula, id: Some("NGC 7293"), name_key: "target-ngc-7293", latin_key: "latin-aquarius", abbr: None, parent_key: Some("target-verseau"), season_key: "season-autumn", dec: -2080i32 },
        Target { target_type: TargetType::Cluster, id: Some("M45"), name_key: "target-m45", latin_key: "latin-taurus", abbr: None, parent_key: Some("target-taureau"), season_key: "season-winter", dec: 2412i32 },
        Target { target_type: TargetType::Cluster, id: Some("M44"), name_key: "target-m44", latin_key: "latin-cancer", abbr: None, parent_key: Some("target-cancer"), season_key: "season-spring", dec: 1967i32 },
        Target { target_type: TargetType::Cluster, id: Some("M35"), name_key: "target-m35", latin_key: "latin-gemini", abbr: None, parent_key: Some("target-gmeaux"), season_key: "season-winter", dec: 2433i32 },
        Target { target_type: TargetType::Cluster, id: Some("M36"), name_key: "target-m36", latin_key: "latin-auriga", abbr: None, parent_key: Some("target-cocher"), season_key: "season-winter", dec: 3413i32 },
        Target { target_type: TargetType::Cluster, id: Some("M37"), name_key: "target-m37", latin_key: "latin-auriga", abbr: None, parent_key: Some("target-cocher"), season_key: "season-winter", dec: 3255i32 },
        Target { target_type: TargetType::Cluster, id: Some("M38"), name_key: "target-m38", latin_key: "latin-auriga", abbr: None, parent_key: Some("target-cocher"), season_key: "season-winter", dec: 3583i32 },
        Target { target_type: TargetType::Cluster, id: Some("M41"), name_key: "target-m41", latin_key: "latin-canis-major", abbr: None, parent_key: Some("target-grand-chien"), season_key: "season-winter", dec: -2073i32 },
        Target { target_type: TargetType::Cluster, id: Some("NGC 869"), name_key: "target-ngc-869", latin_key: "latin-perseus", abbr: None, parent_key: Some("target-perse"), season_key: "season-autumn", dec: 5713i32 },
        Target { target_type: TargetType::Cluster, id: Some("NGC 884"), name_key: "target-ngc-884", latin_key: "latin-perseus", abbr: None, parent_key: Some("target-perse"), season_key: "season-autumn", dec: 5715i32 },
        Target { target_type: TargetType::Cluster, id: Some("NGC 2244"), name_key: "target-ngc-2244", latin_key: "latin-monoceros", abbr: None, parent_key: Some("target-licorne"), season_key: "season-winter", dec: 487i32 },
        Target { target_type: TargetType::Cluster, id: Some("M3"), name_key: "target-m3", latin_key: "latin-canes-venatici", abbr: None, parent_key: Some("target-chiens-de-chasse"), season_key: "season-spring", dec: 2838i32 },
        Target { target_type: TargetType::Cluster, id: Some("M5"), name_key: "target-m5", latin_key: "latin-serpens", abbr: None, parent_key: Some("target-serpent"), season_key: "season-spring", dec: 208i32 },
        Target { target_type: TargetType::Cluster, id: Some("M13"), name_key: "target-m13", latin_key: "latin-hercules", abbr: None, parent_key: Some("target-hercule"), season_key: "season-summer", dec: 3646i32 },
        Target { target_type: TargetType::Cluster, id: Some("M53"), name_key: "target-m53", latin_key: "latin-coma-berenices", abbr: None, parent_key: Some("target-chevelure-de-brnice"), season_key: "season-spring", dec: 1817i32 },
        Target { target_type: TargetType::Cluster, id: Some("NGC 5139"), name_key: "target-ngc-5139", latin_key: "latin-centaurus", abbr: None, parent_key: Some("target-centaure"), season_key: "season-spring", dec: -4748i32 },
        Target { target_type: TargetType::Cluster, id: Some("M11"), name_key: "target-m11", latin_key: "latin-scutum", abbr: None, parent_key: Some("target-cu-de-sobieski"), season_key: "season-summer", dec: -627i32 },
        Target { target_type: TargetType::Cluster, id: Some("M22"), name_key: "target-m22", latin_key: "latin-sagittarius", abbr: None, parent_key: Some("target-sagittaire"), season_key: "season-summer", dec: -2390i32 },
        Target { target_type: TargetType::Cluster, id: Some("M6"), name_key: "target-m6", latin_key: "latin-scorpius", abbr: None, parent_key: Some("target-scorpion"), season_key: "season-summer", dec: -3222i32 },
        Target { target_type: TargetType::Cluster, id: Some("M7"), name_key: "target-m7", latin_key: "latin-scorpius", abbr: None, parent_key: Some("target-scorpion"), season_key: "season-summer", dec: -3482i32 },
        Target { target_type: TargetType::Cluster, id: Some("M92"), name_key: "target-m92", latin_key: "latin-hercules", abbr: None, parent_key: Some("target-hercule"), season_key: "season-summer", dec: 4313i32 },
        Target { target_type: TargetType::Cluster, id: Some("NGC 6231"), name_key: "target-ngc-6231", latin_key: "latin-scorpius", abbr: None, parent_key: Some("target-scorpion"), season_key: "season-summer", dec: -4180i32 },
        Target { target_type: TargetType::Cluster, id: Some("M15"), name_key: "target-m15", latin_key: "latin-pegasus", abbr: None, parent_key: Some("target-pgase"), season_key: "season-autumn", dec: 1217i32 },
        Target { target_type: TargetType::Cluster, id: Some("M2"), name_key: "target-m2", latin_key: "latin-aquarius", abbr: None, parent_key: Some("target-verseau"), season_key: "season-autumn", dec: -82i32 },
        Target { target_type: TargetType::Cluster, id: Some("NGC 104"), name_key: "target-ngc-104", latin_key: "latin-tucana", abbr: None, parent_key: Some("target-toucan"), season_key: "season-autumn", dec: -7208i32 },
        Target { target_type: TargetType::Cluster, id: Some("M34"), name_key: "target-m34", latin_key: "latin-perseus", abbr: None, parent_key: Some("target-perse"), season_key: "season-autumn", dec: 4278i32 },
        Target { target_type: TargetType::Cluster, id: Some("NGC 457"), name_key: "target-ngc-457", latin_key: "latin-cassiopeia", abbr: None, parent_key: Some("target-cassiope"), season_key: "season-autumn", dec: 5833i32 },
    ]
}

/// The full catalogue, in display order.
pub fn catalog() -> (targets: Vec<Target>)
    ensures
        targets@ == catalog_table(),
        targets@.len() == CATALOG_LEN,
        forall|i: int| 0 <= i < targets@.len() ==> valid_declination(#[trigger] targets@[i].dec),
        forall|i: int| 0 <= i < targets@.len() ==> is_season_key(#[trigger] targets@[i].season_key@),
{
    vec![
        Target { target_type: TargetType::Constellation, id: None, name_key: "target-andromde", latin_key: "latin-andromeda", abbr: Some("And"), parent_key: None, season_key: "season-autumn", dec: 3700 },
        Target { target_type: TargetType::Constellation, id: None, name_key: "target-aigle", latin_key: "latin-aquila", abbr: Some("Aql"), parent_key: None, season_key: "season-summer", dec: 300 },
        Target { target_type: TargetType::Constellation, id: None, name_key: "target-verseau", latin_key: "latin-aquarius", abbr: Some("Aqr"), parent_key: None, season_key: "season-autumn", dec: -1000 },
        Target { target_type: TargetType::Constellation, id: None, name_key: "target-blier", latin_key: "latin-aries", abbr: Some("Ari"), parent_key: None, season_key: "season-autumn", dec: 2000 },
        Target { target_type: TargetType::Constellation, id: None, name_key: "target-cocher", latin_key: "latin-auriga", abbr: Some("Aur"), parent_key: None, season_key: "season-winter", dec: 4200 },
        Target { target_type: TargetType::Constellation, id: None, name_key: "target-bouvier", latin_key: "latin-bootes", abbr: Some("Boo"), parent_key: None, season_key: "season-spring", dec: 2800 },
        Target { target_type: TargetType::Constellation, id: None, name_key: "target-girafe", latin_key: "latin-camelopardalis", abbr: Some("Cam"), parent_key: None, season_key: "season-circumpolar-n", dec: 7000 },
        Target { target_type: TargetType::Constellation, id: None, name_key: "target-cancer", latin_key: "latin-cancer", abbr: Some("Cnc"), parent_key: None, season_key: "season-spring", dec: 2000 },
        Target { target_type: TargetType::Constellation, id: None, name_key: "target-chiens-de-chasse", latin_key: "latin-canes-venatici", abbr: Some("CVn"), parent_key: None, season_key: "season-spring", dec: 4000 },
        Target { target_type: TargetType::Constellation, id: None, name_key: "target-petit-chien", latin_key: "latin-canis-minor", abbr: Some("CMi"), parent_key: None, season_key: "season-winter", dec: 500 },
        Target { target_type: TargetType::Constellation, id: None, name_key: "target-cassiope", latin_key: "latin-cassiopeia", abbr: Some("Cas"), parent_key: None, season_key: "season-circumpolar-n", dec: 6000 },
        Target { target_type: TargetType::Constellation, id: None, name_key: "target-cphe", latin_key: "latin-cepheus", abbr: Some("Cep"), parent_key: None, season_key: "season-circumpolar-n", dec: 7000 },
        Target { target_type: TargetType::Constellation, id: None, name_key: "target-chevelure-de-brnice", latin_key: "latin-coma-berenices", abbr: Some("Com"), parent_key: None, season_key: "season-spring", dec: 2300 },
        Target { target_type: TargetType::Constellation, id: None, name_key: "target-couronne-borale", latin_key: "latin-corona-borealis", abbr: Some("CrB"), parent_key: None, season_key: "season-spring", dec: 3000 },
        Target { target_type: TargetType::Constellation, id: None, name_key: "target-cygne", latin_key: "latin-cygnus", abbr: Some("Cyg"), parent_key: None, season_key: "season-summer", dec: 4200 },
        Target { target_type: TargetType::Constellation, id: None, name_key: "target-dauphin", latin_key: "latin-delphinus", abbr: Some("Del"), parent_key: None, season_key: "season-summer", dec: 1200 },
        Target { target_type: TargetType::Constellation, id: None, name_key: "target-dragon", latin_key: "latin-draco", abbr: Some("Dra"), parent_key: None, season_key: "season-circumpolar-n", dec: 6500 },
        Target { target_type: TargetType::Constellation, id: None, name_key: "target-petit-cheval", latin_key: "latin-equuleus", abbr: Some("Equ"), parent_key: None, season_key: "season-autumn", dec: 700 },
        Target { target_type: TargetType::Constellation, id: None, name_key: "target-gmeaux", latin_key: "latin-gemini", abbr: Some("Gem"), parent_key: None, season_key: "season-winter", dec: 2200 },
        Target { target_type: TargetType::Constellation, id: None, name_key: "target-hercule", latin_key: "latin-hercules", abbr: Some("Her"), parent_key: None, season_key: "season-summer", dec: 2700 },
        Target { target_type: TargetType::Constellation, id: None, name_key: "target-lzard", latin_key: "latin-lacerta", abbr: Some("Lac"), parent_key: None, season_key: "season-autumn", dec: 4500 },
        Target { target_type: TargetType::Constellation, id: None, name_key: "target-lion", latin_key: "latin-leo", abbr: Some("Leo"), parent_key: None, season_key: "season-spring", dec: 1500 },
        Target { target_type: TargetType::Constellation, id: None, name_key: "target-petit-lion", latin_key: "latin-leo-minor", abbr: Some("LMi"), parent_key: None, season_key: "season-spring", dec: 3500 },
        Target { target_type: TargetType::Constellation, id: None, name_key: "target-lynx", latin_key: "latin-lynx", abbr: Some("Lyn"), parent_key: None, season_key: "season-winter", dec: 4500 },
        Target { target_type: TargetType::Constellation, id: None, name_key: "target-lyre", latin_key: "latin-lyra", abbr: Some("Lyr"), parent_key: None, season_key: "season-summer", dec: 3800 },
        Target { target_type: TargetType::Constellation, id: None, name_key: "target-licorne", latin_key: "latin-monoceros", abbr: Some("Mon"), parent_key: None, season_key: "season-winter", dec: -300 },
        Target { target_type: TargetType::Constellation, id: None, name_key: "target-ophiuchus", latin_key: "latin-ophiuchus", abbr: Some("Oph"), parent_key: None, season_key: "season-summer", dec: -700 },
        Target { target_type: TargetType::Constellation, id: None, name_key: "target-orion", latin_key: "latin-orion", abbr: Some("Ori"), parent_key: None, season_key: "season-winter", dec: 500 },
        Target { target_type: TargetType::Constellation, id: None, name_key: "target-pgase", latin_key: "latin-pegasus", abbr: Some("Peg"), parent_key: None, season_key: "season-autumn", dec: 2000 },
        Target { target_type: TargetType::Constellation, id: None, name_key: "target-perse", latin_key: "latin-perseus", abbr: Some("Per"), parent_key: None, season_key: "season-autumn", dec: 4500 },
        Target { target_type: TargetType::Constellation, id: None, name_key: "target-poissons", latin_key: "latin-pisces", abbr: Some("Psc"), parent_key: None, season_key: "season-autumn", dec: 1500 },
        Target { target_type: TargetType::Constellation, id: None, name_key: "target-flche", latin_key: "latin-sagitta", abbr: Some("Sge"), parent_key: None, season_key: "season-summer", dec: 1800 },
        Target { target_type: TargetType::Constellation, id: None, name_key: "target-serpent", latin_key: "latin-serpens", abbr: Some("Ser"), parent_key: None, season_key: "season-summer", dec: 0 },
        Target { target_type: TargetType::Constellation, id: None, name_key: "target-sextant", latin_key: "latin-sextans", abbr: Some("Sex"), parent_key: None, season_key: "season-spring", dec: -200 },
        Target { target_type: TargetType::Constellation, id: None, name_key: "target-taureau", latin_key: "latin-taurus", abbr: Some("Tau"), parent_key: None, season_key: "season-winter", dec: 1600 },
        Target { target_type: TargetType::Constellation, id: None, name_key: "target-triangle", latin_key: "latin-triangulum", abbr: Some("Tri"), parent_key: None, season_key: "season-autumn", dec: 3200 },
        Target { target_type: TargetType::Constellation, id: None, name_key: "target-grande-ourse", latin_key: "latin-ursa-major", abbr: Some("UMa"), parent_key: None, season_key: "season-circumpolar-n", dec: 5000 },
        Target { target_type: TargetType::Constellation, id: None, name_key: "target-petite-ourse", latin_key: "latin-ursa-minor", abbr: Some("UMi"), parent_key: None, season_key: "season-circumpolar-n", dec: 7500 },
        Target { target_type: TargetType::Constellation, id: None, name_key: "target-vierge", latin_key: "latin-virgo", abbr: Some("Vir"), parent_key: None, season_key: "season-spring", dec: 0 },
        Target { target_type: TargetType::Constellation, id: None, name_key: "target-petit-renard", latin_key: "latin-vulpecula", abbr: Some("Vul"), parent_key: None, season_key: "season-summer", dec: 2500 },
        Target { target_type: TargetType::Constellation, id: None, name_key: "target-machine-pneumatique", latin_key: "latin-antlia", abbr: Some("Ant"), parent_key: None, season_key: "season-spring", dec: -3500 },
        Target { target_type: TargetType::Constellation, id: None, name_key: "target-oiseau-de-paradis", latin_key: "latin-apus", abbr: Some("Aps"), parent_key: None, season_key: "season-circumpolar-s", dec: -7500 },
        Target { target_type: TargetType::Constellation, id: None, name_key: "target-autel", latin_key: "latin-ara", abbr: Some("Ara"), parent_key: None, season_key: "season-summer", dec: -5300 },
        Target { target_type: TargetType::Constellation, id: None, name_key: "target-burin", latin_key: "latin-caelum", abbr: Some("Cae"), parent_key: None, season_key: "season-winter", dec: -3800 },
        Target { target_type: TargetType::Constellation, id: None, name_key: "target-grand-chien", latin_key: "latin-canis-major", abbr: Some("CMa"), parent_key: None, season_key: "season-winter", dec: -2200 },
        Target { target_type: TargetType::Constellation, id: None, name_key: "target-capricorne", latin_key: "latin-capricornus", abbr: Some("Cap"), parent_key: None, season_key: "season-autumn", dec: -2000 },
        Target { target_type: TargetType::Constellation, id: None, name_key: "target-carne", latin_key: "latin-carina", abbr: Some("Car"), parent_key: None, season_key: "season-circumpolar-s", dec: -6000 },
        Target { target_type: TargetType::Constellation, id: None, name_key: "target-centaure", latin_key: "latin-centaurus", abbr: Some("Cen"), parent_key: None, season_key: "season-spring", dec: -4500 },
        Target { target_type: TargetType::Constellation, id: None, name_key: "target-baleine", latin_key: "latin-cetus", abbr: Some("Cet"), parent_key: None, season_key: "season-autumn", dec: -800 },
        Target { target_type: TargetType::Constellation, id: None, name_key: "target-camlon", latin_key: "latin-chamaeleon", abbr: Some("Cha"), parent_key: None, season_key: "season-circumpolar-s", dec: -7500 },
        Target { target_type: TargetType::Constellation, id: None, name_key: "target-circin", latin_key: "latin-circinus", abbr: Some("Cir"), parent_key: None, season_key: "season-circumpolar-s", dec: -6000 },
        Target { target_type: TargetType::Constellation, id: None, name_key: "target-colombe", latin_key: "latin-columba", abbr: Some("Col"), parent_key: None, season_key: "season-winter", dec: -3500 },
        Target { target_type: TargetType::Constellation, id: None, name_key: "target-couronne-australe", latin_key: "latin-corona-australis", abbr: Some("CrA"), parent_key: None, season_key: "season-summer", dec: -4000 },
        Target { target_type: TargetType::Constellation, id: None, name_key: "target-corbeau", latin_key: "latin-corvus", abbr: Some("Crv"), parent_key: None, season_key: "season-spring", dec: -1800 },
        Target { target_type: TargetType::Constellation, id: None, name_key: "target-coupe", latin_key: "latin-crater", abbr: Some("Crt"), parent_key: None, season_key: "season-spring", dec: -1500 },
        Target { target_type: TargetType::Constellation, id: None, name_key: "target-croix-du-sud", latin_key: "latin-crux", abbr: Some("Cru"), parent_key: None, season_key: "season-circumpolar-s", dec: -6000 },
        Target { target_type: TargetType::Constellation, id: None, name_key: "target-dorade", latin_key: "latin-dorado", abbr: Some("Dor"), parent_key: None, season_key: "season-circumpolar-s", dec: -6000 },
        Target { target_type: TargetType::Constellation, id: None, name_key: "target-ridan", latin_key: "latin-eridanus", abbr: Some("Eri"), parent_key: None, season_key: "season-winter", dec: -3000 },
        Target { target_type: TargetType::Constellation, id: None, name_key: "target-fourneau", latin_key: "latin-fornax", abbr: Some("For"), parent_key: None, season_key: "season-autumn", dec: -3000 },
        Target { target_type: TargetType::Constellation, id: None, name_key: "target-grue", latin_key: "latin-grus", abbr: Some("Gru"), parent_key: None, season_key: "season-autumn", dec: -4500 },
        Target { target_type: TargetType::Constellation, id: None, name_key: "target-horloge", latin_key: "latin-horologium", abbr: Some("Hor"), parent_key: None, season_key: "season-winter", dec: -5000 },
        Target { target_type: TargetType::Constellation, id: None, name_key: "target-hydre", latin_key: "latin-hydra", abbr: Some("Hya"), parent_key: None, season_key: "season-spring", dec: -2000 },
        Target { target_type: TargetType::Constellation, id: None, name_key: "target-hydre-mle", latin_key: "latin-hydrus", abbr: Some("Hyi"), parent_key: None, season_key: "season-circumpolar-s", dec: -7000 },
        Target { target_type: TargetType::Constellation, id: None, name_key: "target-indien", latin_key: "latin-indus", abbr: Some("Ind"), parent_key: None, season_key: "season-summer", dec: -5500 },
        Target { target_type: TargetType::Constellation, id: None, name_key: "target-livre", latin_key: "latin-lepus", abbr: Some("Lep"), parent_key: None, season_key: "season-winter", dec: -1800 },
        Target { target_type: TargetType::Constellation, id: None, name_key: "target-balance", latin_key: "latin-libra", abbr: Some("Lib"), parent_key: None, season_key: "season-spring", dec: -1500 },
        Target { target_type: TargetType::Constellation, id: None, name_key: "target-loup", latin_key: "latin-lupus", abbr: Some("Lup"), parent_key: None, season_key: "season-summer", dec: -4000 },
        Target { target_type: TargetType::Constellation, id: None, name_key: "target-table", latin_key: "latin-mensa", abbr: Some("Men"), parent_key: None, season_key: "season-circumpolar-s", dec: -7500 },
        Target { target_type: TargetType::Constellation, id: None, name_key: "target-microscope", latin_key: "latin-microscopium", abbr: Some("Mic"), parent_key: None, season_key: "season-autumn", dec: -3500 },
        Target { target_type: TargetType::Constellation, id: None, name_key: "target-mouche", latin_key: "latin-musca", abbr: Some("Mus"), parent_key: None, season_key: "season-circumpolar-s", dec: -7000 },
        Target { target_type: TargetType::Constellation, id: None, name_key: "target-rgle", latin_key: "latin-norma", abbr: Some("Nor"), parent_key: None, season_key: "season-summer", dec: -5000 },
        Target { target_type: TargetType::Constellation, id: None, name_key: "target-octant", latin_key: "latin-octans", abbr: Some("Oct"), parent_key: None, season_key: "season-circumpolar-s", dec: -8500 },
        Target { target_type: TargetType::Constellation, id: None, name_key: "target-paon", latin_key: "latin-pavo", abbr: Some("Pav"), parent_key: None, season_key: "season-circumpolar-s", dec: -6500 },
        Target { target_type: TargetType::Constellation, id: None, name_key: "target-phnix", latin_key: "latin-phoenix", abbr: Some("Phe"), parent_key: None, season_key: "season-autumn", dec: -4500 },
        Target { target_type: TargetType::Constellation, id: None, name_key: "target-peintre", latin_key: "latin-pictor", abbr: Some("Pic"), parent_key: None, season_key: "season-winter", dec: -5500 },
        Target { target_type: TargetType::Constellation, id: None, name_key: "target-poisson-austral", latin_key: "latin-piscis-austrinus", abbr: Some("PsA"), parent_key: None, season_key: "season-autumn", dec: -3000 },
        Target { target_type: TargetType::Constellation, id: None, name_key: "target-poupe", latin_key: "latin-puppis", abbr: Some("Pup"), parent_key: None, season_key: "season-winter", dec: -3000 },
        Target { target_type: TargetType::Constellation, id: None, name_key: "target-boussole", latin_key: "latin-pyxis", abbr: Some("Pyx"), parent_key: None, season_key: "season-spring", dec: -3000 },
        Target { target_type: TargetType::Constellation, id: None, name_key: "target-sagittaire", latin_key: "latin-sagittarius", abbr: Some("Sgr"), parent_key: None, season_key: "season-summer", dec: -2500 },
        Target { target_type: TargetType::Constellation, id: None, name_key: "target-scorpion", latin_key: "latin-scorpius", abbr: Some("Sco"), parent_key: None, season_key: "season-summer", dec: -3000 },
        Target { target_type: TargetType::Constellation, id: None, name_key: "target-sculpteur", latin_key: "latin-sculptor", abbr: Some("Scl"), parent_key: None, season_key: "season-autumn", dec: -3000 },
        Target { target_type: TargetType::Constellation, id: None, name_key: "target-cu-de-sobieski", latin_key: "latin-scutum", abbr: Some("Sct"), parent_key: None, season_key: "season-summer", dec: -1000 },
        Target { target_type: TargetType::Constellation, id: None, name_key: "target-tlescope", latin_key: "latin-telescopium", abbr: Some("Tel"), parent_key: None, season_key: "season-summer", dec: -5000 },
        Target { target_type: TargetType::Constellation, id: None, name_key: "target-triangle-austral", latin_key: "latin-triangulum-australe", abbr: Some("TrA"), parent_key: None, season_key: "season-circumpolar-s", dec: -6500 },
        Target { target_type: TargetType::Constellation, id: None, name_key: "target-toucan", latin_key: "latin-tucana", abbr: Some("Tuc"), parent_key: None, season_key: "season-circumpolar-s", dec: -6000 },
        Target { target_type: TargetType::Constellation, id: None, name_key: "target-voiles", latin_key: "latin-vela", abbr: Some("Vel"), parent_key: None, season_key: "season-spring", dec: -5000 },
        Target { target_type: TargetType::Constellation, id: None, name_key: "target-poisson-volant", latin_key: "latin-volans", abbr: Some("Vol"), parent_key: None, season_key: "season-circumpolar-s", dec: -7000 },
        Target { target_type: TargetType::Constellation, id: None, name_key: "target-rticule", latin_key: "latin-reticulum", abbr: Some("Ret"), parent_key: None, season_key: "season-circumpolar-s", dec: -6000 },
        Target { target_type: TargetType::Constellation, id: None, name_key: "target-burin", latin_key: "latin-caelum", abbr: Some("Cae"), parent_key: None, season_key: "season-winter", dec: -3800 },
        Target { target_type: TargetType::Messier, id: Some("M1"), name_key: "target-m1", latin_key: "latin-taurus", abbr: None, parent_key: Some("target-taureau"), season_key: "season-winter", dec: 2200 },
        Target { target_type: TargetType::Messier, id: Some("M2"), name_key: "target-m2", latin_key: "latin-aquarius", abbr: None, parent_key: Some("target-verseau"), season_key: "season-autumn", dec: -80 },
        Target { target_type: TargetType::Messier, id: Some("M3"), name_key: "target-m3", latin_key: "latin-canes-venatici", abbr: None, parent_key: Some("target-chiens-de-chasse"), season_key: "season-spring", dec: 2840 },
        Target { target_type: TargetType::Messier, id: Some("M4"), name_key: "target-m4", latin_key: "latin-scorpius", abbr: None, parent_key: Some("target-scorpion"), season_key: "season-summer", dec: -2650 },
        Target { target_type: TargetType::Messier, id: Some("M5"), name_key: "target-m5", latin_key: "latin-serpens", abbr: None, parent_key: Some("target-serpent"), season_key: "season-spring", dec: 210 },
        Target { target_type: TargetType::Messier, id: Some("M6"), name_key: "target-m6", latin_key: "latin-scorpius", abbr: None, parent_key: Some("target-scorpion"), season_key: "season-summer", dec: -3220 },
        Target { target_type: TargetType::Messier, id: Some("M7"), name_key: "target-m7", latin_key: "latin-scorpius", abbr: None, parent_key: Some("target-scorpion"), season_key: "season-summer", dec: -3480 },
        Target { target_type: TargetType::Messier, id: Some("M8"), name_key: "target-m8", latin_key: "latin-sagittarius", abbr: None, parent_key: Some("target-sagittaire"), season_key: "season-summer", dec: -2440 },
        Target { target_type: TargetType::Messier, id: Some("M9"), name_key: "target-m9", latin_key: "latin-ophiuchus", abbr: None, parent_key: Some("target-ophiuchus"), season_key: "season-summer", dec: -1850 },
        Target { target_type: TargetType::Messier, id: Some("M10"), name_key: "target-m10", latin_key: "latin-ophiuchus", abbr: None, parent_key: Some("target-ophiuchus"), season_key: "season-summer", dec: -410 },
        Target { target_type: TargetType::Messier, id: Some("M11"), name_key: "target-m11", latin_key: "latin-scutum", abbr: None, parent_key: Some("target-cu-de-sobieski"), season_key: "season-summer", dec: -630 },
        Target { target_type: TargetType::Messier, id: Some("M12"), name_key: "target-m12", latin_key: "latin-ophiuchus", abbr: None, parent_key: Some("target-ophiuchus"), season_key: "season-summer", dec: -200 },
        Target { target_type: TargetType::Messier, id: Some("M13"), name_key: "target-m13", latin_key: "latin-hercules", abbr: None, parent_key: Some("target-hercule"), season_key: "season-summer", dec: 3650 },
        Target { target_type: TargetType::Messier, id: Some("M14"), name_key: "target-m14", latin_key: "latin-ophiuchus", abbr: None, parent_key: Some("target-ophiuchus"), season_key: "season-summer", dec: -320 },
        Target { target_type: TargetType::Messier, id: Some("M15"), name_key: "target-m15", latin_key: "latin-pegasus", abbr: None, parent_key: Some("target-pgase"), season_key: "season-autumn", dec: 1220 },
        Target { target_type: TargetType::Messier, id: Some("M16"), name_key: "target-m16", latin_key: "latin-serpens", abbr: None, parent_key: Some("target-serpent"), season_key: "season-summer", dec: -1380 },
        Target { target_type: TargetType::Messier, id: Some("M17"), name_key: "target-m17", latin_key: "latin-sagittarius", abbr: None, parent_key: Some("target-sagittaire"), season_key: "season-summer", dec: -1620 },
        Target { target_type: TargetType::Messier, id: Some("M18"), name_key: "target-m18", latin_key: "latin-sagittarius", abbr: None, parent_key: Some("target-sagittaire"), season_key: "season-summer", dec: -1710 },
        Target { target_type: TargetType::Messier, id: Some("M19"), name_key: "target-m19", latin_key: "latin-ophiuchus", abbr: None, parent_key: Some("target-ophiuchus"), season_key: "season-summer", dec: -2630 },
        Target { target_type: TargetType::Messier, id: Some("M20"), name_key: "target-m20", latin_key: "latin-sagittarius", abbr: None, parent_key: Some("target-sagittaire"), season_key: "season-summer", dec: -2300 },
        Target { target_type: TargetType::Messier, id: Some("M21"), name_key: "target-m21", latin_key: "latin-sagittarius", abbr: None, parent_key: Some("target-sagittaire"), season_key: "season-summer", dec: -2250 },
        Target { target_type: TargetType::Messier, id: Some("M22"), name_key: "target-m22", latin_key: "latin-sagittarius", abbr: None, parent_key: Some("target-sagittaire"), season_key: "season-summer", dec: -2390 },
        Target { target_type: TargetType::Messier, id: Some("M23"), name_key: "target-m23", latin_key: "latin-sagittarius", abbr: None, parent_key: Some("target-sagittaire"), season_key: "season-summer", dec: -1900 },
        Target { target_type: TargetType::Messier, id: Some("M24"), name_key: "target-m24", latin_key: "latin-sagittarius", abbr: None, parent_key: Some("target-sagittaire"), season_key: "season-summer", dec: -1840 },
        Target { target_type: TargetType::Messier, id: Some("M25"), name_key: "target-m25", latin_key: "latin-sagittarius", abbr: None, parent_key: Some("target-sagittaire"), season_key: "season-summer", dec: -1910 },
        Target { target_type: TargetType::Messier, id: Some("M26"), name_key: "target-m26", latin_key: "latin-scutum", abbr: None, parent_key: Some("target-cu-de-sobieski"), season_key: "season-summer", dec: -940 },
        Target { target_type: TargetType::Messier, id: Some("M27"), name_key: "target-m27", latin_key: "latin-vulpecula", abbr: None, parent_key: Some("target-petit-renard"), season_key: "season-summer", dec: 2270 },
        Target { target_type: TargetType::Messier, id: Some("M28"), name_key: "target-m28", latin_key: "latin-sagittarius", abbr: None, parent_key: Some("target-sagittaire"), season_key: "season-summer", dec: -2490 },
        Target { target_type: TargetType::Messier, id: Some("M29"), name_key: "target-m29", latin_key: "latin-cygnus", abbr: None, parent_key: Some("target-cygne"), season_key: "season-summer", dec: 3850 },
        Target { target_type: TargetType::Messier, id: Some("M30"), name_key: "target-m30", latin_key: "latin-capricornus", abbr: None, parent_key: Some("target-capricorne"), season_key: "season-autumn", dec: -2320 },
        Target { target_type: TargetType::Messier, id: Some("M31"), name_key: "target-m31", latin_key: "latin-andromeda", abbr: None, parent_key: Some("target-andromde"), season_key: "season-autumn", dec: 4130 },
        Target { target_type: TargetType::Messier, id: Some("M32"), name_key: "target-m32", latin_key: "latin-andromeda", abbr: None, parent_key: Some("target-andromde"), season_key: "season-autumn", dec: 4090 },
        Target { target_type: TargetType::Messier, id: Some("M33"), name_key: "target-m33", latin_key: "latin-triangulum", abbr: None, parent_key: Some("target-triangle"), season_key: "season-autumn", dec: 3070 },
        Target { target_type: TargetType::Messier, id: Some("M34"), name_key: "target-m34", latin_key: "latin-perseus", abbr: None, parent_key: Some("target-perse"), season_key: "season-autumn", dec: 4280 },
        Target { target_type: TargetType::Messier, id: Some("M35"), name_key: "target-m35", latin_key: "latin-gemini", abbr: None, parent_key: Some("target-gmeaux"), season_key: "season-winter", dec: 2430 },
        Target { target_type: TargetType::Messier, id: Some("M36"), name_key: "target-m36", latin_key: "latin-auriga", abbr: None, parent_key: Some("target-cocher"), season_key: "season-winter", dec: 3410 },
        Target { target_type: TargetType::Messier, id: Some("M37"), name_key: "target-m37", latin_key: "latin-auriga", abbr: None, parent_key: Some("target-cocher"), season_key: "season-winter", dec: 3250 },
        Target { target_type: TargetType::Messier, id: Some("M38"), name_key: "target-m38", latin_key: "latin-auriga", abbr: None, parent_key: Some("target-cocher"), season_key: "season-winter", dec: 3580 },
        Target { target_type: TargetType::Messier, id: Some("M39"), name_key: "target-m39", latin_key: "latin-cygnus", abbr: None, parent_key: Some("target-cygne"), season_key: "season-summer", dec: 4840 },
        Target { target_type: TargetType::Messier, id: Some("M40"), name_key: "target-m40", latin_key: "latin-ursa-major", abbr: None, parent_key: Some("target-grande-ourse"), season_key: "season-spring", dec: 5810 },
        Target { target_type: TargetType::Messier, id: Some("M41"), name_key: "target-m41", latin_key: "latin-canis-major", abbr: None, parent_key: Some("target-grand-chien"), season_key: "season-winter", dec: -2070 },
        Target { target_type: TargetType::Messier, id: Some("M42"), name_key: "target-m42", latin_key: "latin-orion", abbr: None, parent_key: Some("target-orion"), season_key: "season-winter", dec: -540 },
        Target { target_type: TargetType::Messier, id: Some("M43"), name_key: "target-m43", latin_key: "latin-orion", abbr: None, parent_key: Some("target-orion"), season_key: "season-winter", dec: -530 },
        Target { target_type: TargetType::Messier, id: Some("M44"), name_key: "target-m44", latin_key: "latin-cancer", abbr: None, parent_key: Some("target-cancer"), season_key: "season-spring", dec: 1970 },
        Target { target_type: TargetType::Messier, id: Some("M45"), name_key: "target-m45", latin_key: "latin-taurus", abbr: None, parent_key: Some("target-taureau"), season_key: "season-winter", dec: 2410 },
        Target { target_type: TargetType::Messier, id: Some("M46"), name_key: "target-m46", latin_key: "latin-puppis", abbr: None, parent_key: Some("target-poupe"), season_key: "season-winter", dec: -1480 },
        Target { target_type: TargetType::Messier, id: Some("M47"), name_key: "target-m47", latin_key: "latin-puppis", abbr: None, parent_key: Some("target-poupe"), season_key: "season-winter", dec: -1440 },
        Target { target_type: TargetType::Messier, id: Some("M48"), name_key: "target-m48", latin_key: "latin-hydra", abbr: None, parent_key: Some("target-hydre"), season_key: "season-winter", dec: -580 },
        Target { target_type: TargetType::Messier, id: Some("M49"), name_key: "target-m49", latin_key: "latin-virgo", abbr: None, parent_key: Some("target-vierge"), season_key: "season-spring", dec: 800 },
        Target { target_type: TargetType::Messier, id: Some("M50"), name_key: "target-m50", latin_key: "latin-monoceros", abbr: None, parent_key: Some("target-licorne"), season_key: "season-winter", dec: -830 },
        Target { target_type: TargetType::Messier, id: Some("M51"), name_key: "target-m51", latin_key: "latin-canes-venatici", abbr: None, parent_key: Some("target-chiens-de-chasse"), season_key: "season-spring", dec: 4720 },
        Target { target_type: TargetType::Messier, id: Some("M52"), name_key: "target-m52", latin_key: "latin-cassiopeia", abbr: None, parent_key: Some("target-cassiope"), season_key: "season-autumn", dec: 6160 },
        Target { target_type: TargetType::Messier, id: Some("M53"), name_key: "target-m53", latin_key: "latin-coma-berenices", abbr: None, parent_key: Some("target-chevelure-de-brnice"), season_key: "season-spring", dec: 1820 },
        Target { target_type: TargetType::Messier, id: Some("M54"), name_key: "target-m54", latin_key: "latin-sagittarius", abbr: None, parent_key: Some("target-sagittaire"), season_key: "season-summer", dec: -3050 },
        Target { target_type: TargetType::Messier, id: Some("M55"), name_key: "target-m55", latin_key: "latin-sagittarius", abbr: None, parent_key: Some("target-sagittaire"), season_key: "season-summer", dec: -3100 },
        Target { target_type: TargetType::Messier, id: Some("M56"), name_key: "target-m56", latin_key: "latin-lyra", abbr: None, parent_key: Some("target-lyre"), season_key: "season-summer", dec: 3020 },
        Target { target_type: TargetType::Messier, id: Some("M57"), name_key: "target-m57", latin_key: "latin-lyra", abbr: None, parent_key: Some("target-lyre"), season_key: "season-summer", dec: 3300 },
        Target { target_type: TargetType::Messier, id: Some("M58"), name_key: "target-m58", latin_key: "latin-virgo", abbr: None, parent_key: Some("target-vierge"), season_key: "season-spring", dec: 1180 },
        Target { target_type: TargetType::Messier, id: Some("M59"), name_key: "target-m59", latin_key: "latin-virgo", abbr: None, parent_key: Some("target-vierge"), season_key: "season-spring", dec: 1160 },
        Target { target_type: TargetType::Messier, id: Some("M60"), name_key: "target-m60", latin_key: "latin-virgo", abbr: None, parent_key: Some("target-vierge"), season_key: "season-spring", dec: 1150 },
        Target { target_type: TargetType::Messier, id: Some("M61"), name_key: "target-m61", latin_key: "latin-virgo", abbr: None, parent_key: Some("target-vierge"), season_key: "season-spring", dec: 450 },
        Target { target_type: TargetType::Messier, id: Some("M62"), name_key: "target-m62", latin_key: "latin-ophiuchus", abbr: None, parent_key: Some("target-ophiuchus"), season_key: "season-summer", dec: -3010 },
        Target { target_type: TargetType::Messier, id: Some("M63"), name_key: "target-m63", latin_key: "latin-canes-venatici", abbr: None, parent_key: Some("target-chiens-de-chasse"), season_key: "season-spring", dec: 4200 },
        Target { target_type: TargetType::Messier, id: Some("M64"), name_key: "target-m64", latin_key: "latin-coma-berenices", abbr: None, parent_key: Some("target-chevelure-de-brnice"), season_key: "season-spring", dec: 2170 },
        Target { target_type: TargetType::Messier, id: Some("M65"), name_key: "target-m65", latin_key: "latin-leo", abbr: None, parent_key: Some("target-lion"), season_key: "season-spring", dec: 1310 },
        Target { target_type: TargetType::Messier, id: Some("M66"), name_key: "target-m66", latin_key: "latin-leo", abbr: None, parent_key: Some("target-lion"), season_key: "season-spring", dec: 1300 },
        Target { target_type: TargetType::Messier, id: Some("M67"), name_key: "target-m67", latin_key: "latin-cancer", abbr: None, parent_key: Some("target-cancer"), season_key: "season-spring", dec: 1180 },
        Target { target_type: TargetType::Messier, id: Some("M68"), name_key: "target-m68", latin_key: "latin-hydra", abbr: None, parent_key: Some("target-hydre"), season_key: "season-spring", dec: -2670 },
        Target { target_type: TargetType::Messier, id: Some("M69"), name_key: "target-m69", latin_key: "latin-sagittarius", abbr: None, parent_key: Some("target-sagittaire"), season_key: "season-summer", dec: -3230 },
        Target { target_type: TargetType::Messier, id: Some("M70"), name_key: "target-m70", latin_key: "latin-sagittarius", abbr: None, parent_key: Some("target-sagittaire"), season_key: "season-summer", dec: -3230 },
        Target { target_type: TargetType::Messier, id: Some("M71"), name_key: "target-m71", latin_key: "latin-sagitta", abbr: None, parent_key: Some("target-flche"), season_key: "season-summer", dec: 1880 },
        Target { target_type: TargetType::Messier, id: Some("M72"), name_key: "target-m72", latin_key: "latin-aquarius", abbr: None, parent_key: Some("target-verseau"), season_key: "season-autumn", dec: -1250 },
        Target { target_type: TargetType::Messier, id: Some("M73"), name_key: "target-m73", latin_key: "latin-aquarius", abbr: None, parent_key: Some("target-verseau"), season_key: "season-autumn", dec: -1260 },
        Target { target_type: TargetType::Messier, id: Some("M74"), name_key: "target-m74", latin_key: "latin-pisces", abbr: None, parent_key: Some("target-poissons"), season_key: "season-autumn", dec: 1580 },
        Target { target_type: TargetType::Messier, id: Some("M75"), name_key: "target-m75", latin_key: "latin-sagittarius", abbr: None, parent_key: Some("target-sagittaire"), season_key: "season-summer", dec: -2190 },
        Target { target_type: TargetType::Messier, id: Some("M76"), name_key: "target-m76", latin_key: "latin-perseus", abbr: None, parent_key: Some("target-perse"), season_key: "season-autumn", dec: 5160 },
        Target { target_type: TargetType::Messier, id: Some("M77"), name_key: "target-m77", latin_key: "latin-cetus", abbr: None, parent_key: Some("target-baleine"), season_key: "season-autumn", dec: 0 },
        Target { target_type: TargetType::Messier, id: Some("M78"), name_key: "target-m78", latin_key: "latin-orion", abbr: None, parent_key: Some("target-orion"), season_key: "season-winter", dec: 10 },
        Target { target_type: TargetType::Messier, id: Some("M79"), name_key: "target-m79", latin_key: "latin-lepus", abbr: None, parent_key: Some("target-livre"), season_key: "season-winter", dec: -2450 },
        Target { target_type: TargetType::Messier, id: Some("M80"), name_key: "target-m80", latin_key: "latin-scorpius", abbr: None, parent_key: Some("target-scorpion"), season_key: "season-summer", dec: -2300 },
        Target { target_type: TargetType::Messier, id: Some("M81"), name_key: "target-m81", latin_key: "latin-ursa-major", abbr: None, parent_key: Some("target-grande-ourse"), season_key: "season-spring", dec: 6910 },
        Target { target_type: TargetType::Messier, id: Some("M82"), name_key: "target-m82", latin_key: "latin-ursa-major", abbr: None, parent_key: Some("target-grande-ourse"), season_key: "season-spring", dec: 6970 },
        Target { target_type: TargetType::Messier, id: Some("M83"), name_key: "target-m83", latin_key: "latin-hydra", abbr: None, parent_key: Some("target-hydre"), season_key: "season-spring", dec: -2990 },
        Target { target_type: TargetType::Messier, id: Some("M84"), name_key: "target-m84", latin_key: "latin-virgo", abbr: None, parent_key: Some("target-vierge"), season_key: "season-spring", dec: 1290 },
        Target { target_type: TargetType::Messier, id: Some("M85"), name_key: "target-m85", latin_key: "latin-coma-berenices", abbr: None, parent_key: Some("target-chevelure-de-brnice"), season_key: "season-spring", dec: 1820 },
        Target { target_type: TargetType::Messier, id: Some("M86"), name_key: "target-m86", latin_key: "latin-virgo", abbr: None, parent_key: Some("target-vierge"), season_key: "season-spring", dec: 1290 },
        Target { target_type: TargetType::Messier, id: Some("M87"), name_key: "target-m87", latin_key: "latin-virgo", abbr: None, parent_key: Some("target-vierge"), season_key: "season-spring", dec: 1240 },
        Target { target_type: TargetType::Messier, id: Some("M88"), name_key: "target-m88", latin_key: "latin-coma-berenices", abbr: None, parent_key: Some("target-chevelure-de-brnice"), season_key: "season-spring", dec: 1440 },
        Target { target_type: TargetType::Messier, id: Some("M89"), name_key: "target-m89", latin_key: "latin-virgo", abbr: None, parent_key: Some("target-vierge"), season_key: "season-spring", dec: 1260 },
        Target { target_type: TargetType::Messier, id: Some("M90"), name_key: "target-m90", latin_key: "latin-virgo", abbr: None, parent_key: Some("target-vierge"), season_key: "season-spring", dec: 1320 },
        Target { target_type: TargetType::Messier, id: Some("M91"), name_key: "target-m91", latin_key: "latin-coma-berenices", abbr: None, parent_key: Some("target-chevelure-de-brnice"), season_key: "season-spring", dec: 1450 },
        Target { target_type: TargetType::Messier, id: Some("M92"), name_key: "target-m92", latin_key: "latin-hercules", abbr: None, parent_key: Some("target-hercule"), season_key: "season-summer", dec: 4310 },
        Target { target_type: TargetType::Messier, id: Some("M93"), name_key: "target-m93", latin_key: "latin-puppis", abbr: None, parent_key: Some("target-poupe"), season_key: "season-winter", dec: -2380 },
        Target { target_type: TargetType::Messier, id: Some("M94"), name_key: "target-m94", latin_key: "latin-canes-venatici", abbr: None, parent_key: Some("target-chiens-de-chasse"), season_key: "season-spring", dec: 4110 },
        Target { target_type: TargetType::Messier, id: Some("M95"), name_key: "target-m95", latin_key: "latin-leo", abbr: None, parent_key: Some("target-lion"), season_key: "season-spring", dec: 1170 },
        Target { target_type: TargetType::Messier, id: Some("M96"), name_key: "target-m96", latin_key: "latin-leo", abbr: None, parent_key: Some("target-lion"), season_key: "season-spring", dec: 1180 },
        Target { target_type: TargetType::Messier, id: Some("M97"), name_key: "target-m97", latin_key: "latin-ursa-major", abbr: None, parent_key: Some("target-grande-ourse"), season_key: "season-spring", dec: 5500 },
        Target { target_type: TargetType::Messier, id: Some("M98"), name_key: "target-m98", latin_key: "latin-coma-berenices", abbr: None, parent_key: Some("target-chevelure-de-brnice"), season_key: "season-spring", dec: 1490 },
        Target { target_type: TargetType::Messier, id: Some("M99"), name_key: "target-m99", latin_key: "latin-coma-berenices", abbr: None, parent_key: Some("target-chevelure-de-brnice"), season_key: "season-spring", dec: 1440 },
        Target { target_type: TargetType::Messier, id: Some("M100"), name_key: "target-m100", latin_key: "latin-coma-berenices", abbr: None, parent_key: Some("target-chevelure-de-brnice"), season_key: "season-spring", dec: 1580 },
        Target { target_type: TargetType::Messier, id: Some("M101"), name_key: "target-m101", latin_key: "latin-ursa-major", abbr: None, parent_key: Some("target-grande-ourse"), season_key: "season-spring", dec: 5440 },
        Target { target_type: TargetType::Messier, id: Some("M102"), name_key: "target-m102", latin_key: "latin-draco", abbr: None, parent_key: Some("target-dragon"), season_key: "season-circumpolar-n", dec: 5580 },
        Target { target_type: TargetType::Messier, id: Some("M103"), name_key: "target-m103", latin_key: "latin-cassiopeia", abbr: None, parent_key: Some("target-cassiope"), season_key: "season-autumn", dec: 6070 },
        Target { target_type: TargetType::Messier, id: Some("M104"), name_key: "target-m104", latin_key: "latin-virgo", abbr: None, parent_key: Some("target-vierge"), season_key: "season-spring", dec: -1160 },
        Target { target_type: TargetType::Messier, id: Some("M105"), name_key: "target-m105", latin_key: "latin-leo", abbr: None, parent_key: Some("target-lion"), season_key: "season-spring", dec: 1260 },
        Target { target_type: TargetType::Messier, id: Some("M106"), name_key: "target-m106", latin_key: "latin-canes-venatici", abbr: None, parent_key: Some("target-chiens-de-chasse"), season_key: "season-spring", dec: 4730 },
        Target { target_type: TargetType::Messier, id: Some("M107"), name_key: "target-m107", latin_key: "latin-ophiuchus", abbr: None, parent_key: Some("target-ophiuchus"), season_key: "season-summer", dec: -1300 },
        Target { target_type: TargetType::Messier, id: Some("M108"), name_key: "target-m108", latin_key: "latin-ursa-major", abbr: None, parent_key: Some("target-grande-ourse"), season_key: "season-spring", dec: 5340 },
        Target { target_type: TargetType::Messier, id: Some("M109"), name_key: "target-m109", latin_key: "latin-ursa-major", abbr: None, parent_key: Some("target-grande-ourse"), season_key: "season-spring", dec: 5340 },
        Target { target_type: TargetType::Messier, id: Some("M110"), name_key: "target-m110", latin_key: "latin-andromeda", abbr: None, parent_key: Some("target-andromde"), season_key: "season-autumn", dec: 4170 },
        Target { target_type: TargetType::Galaxy, id: Some("M31"), name_key: "target-m31", latin_key: "latin-andromeda", abbr: None, parent_key: Some("target-andromde"), season_key: "season-autumn", dec: 4126 },
        Target { target_type: TargetType::Galaxy, id: Some("M33"), name_key: "target-m33", latin_key: "latin-triangulum", abbr: None, parent_key: Some("target-triangle"), season_key: "season-autumn", dec: 3066 },
        Target { target_type: TargetType::Galaxy, id: Some("M51"), name_key: "target-m51", latin_key: "latin-canes-venatici", abbr: Some("NGC 5194"), parent_key: Some("target-chiens-de-chasse"), season_key: "season-spring", dec: 4719 },
        Target { target_type: TargetType::Galaxy, id: Some("M81"), name_key: "target-m81", latin_key: "latin-ursa-major", abbr: None, parent_key: Some("target-grande-ourse"), season_key: "season-spring", dec: 6906 },
        Target { target_type: TargetType::Galaxy, id: Some("M82"), name_key: "target-m82", latin_key: "latin-ursa-major", abbr: None, parent_key: Some("target-grande-ourse"), season_key: "season-spring", dec: 6968 },
        Target { target_type: TargetType::Galaxy, id: Some("M101"), name_key: "target-m101", latin_key: "latin-ursa-major", abbr: None, parent_key: Some("target-grande-ourse"), season_key: "season-spring", dec: 5435 },
        Target { target_type: TargetType::Galaxy, id: Some("M63"), name_key: "target-m63", latin_key: "latin-canes-venatici", abbr: None, parent_key: Some("target-chiens-de-chasse"), season_key: "season-spring", dec: 4203 },
        Target { target_type: TargetType::Galaxy, id: Some("M64"), name_key: "target-m64", latin_key: "latin-coma-berenices", abbr: None, parent_key: Some("target-chevelure-de-brnice"), season_key: "season-spring", dec: 2168 },
        Target { target_type: TargetType::Galaxy, id: Some("NGC 4565"), name_key: "target-ngc-4565", latin_key: "latin-coma-berenices", abbr: None, parent_key: Some("target-chevelure-de-brnice"), season_key: "season-spring", dec: 2598 },
        Target { target_type: TargetType::Galaxy, id: Some("M104"), name_key: "target-m104", latin_key: "latin-virgo", abbr: None, parent_key: Some("target-vierge"), season_key: "season-spring", dec: -1162 },
        Target { target_type: TargetType::Galaxy, id: Some("LMC"), name_key: "target-lmc", latin_key: "latin-dorado", abbr: None, parent_key: Some("target-dorade"), season_key: "season-circumpolar-s", dec: -6975 },
        Target { target_type: TargetType::Galaxy, id: Some("SMC"), name_key: "target-smc", latin_key: "latin-tucana", abbr: None, parent_key: Some("target-toucan"), season_key: "season-circumpolar-s", dec: -7280 },
        Target { target_type: TargetType::Galaxy, id: Some("NGC 5128"), name_key: "target-ngc-5128", latin_key: "latin-centaurus", abbr: None, parent_key: Some("target-centaure"), season_key: "season-spring", dec: -4301 },
        Target { target_type: TargetType::Galaxy, id: Some("M83"), name_key: "target-m83", latin_key: "latin-hydra", abbr: None, parent_key: Some("target-hydre"), season_key: "season-spring", dec: -2986 },
        Target { target_type: TargetType::Galaxy, id: Some("NGC 253"), name_key: "target-ngc-253", latin_key: "latin-sculptor", abbr: None, parent_key: Some("target-sculpteur"), season_key: "season-autumn", dec: -2529 },
        Target { target_type: TargetType::Galaxy, id: Some("NGC 300"), name_key: "target-ngc-300", latin_key: "latin-sculptor", abbr: None, parent_key: Some("target-sculpteur"), season_key: "season-autumn", dec: -3768 },
        Target { target_type: TargetType::Galaxy, id: Some("NGC 4945"), name_key: "target-ngc-4945", latin_key: "latin-centaurus", abbr: None, parent_key: Some("target-centaure"), season_key: "season-spring", dec: -4947 },
        Target { target_type: TargetType::Galaxy, id: Some("NGC 1316"), name_key: "target-ngc-1316", latin_key: "latin-fornax", abbr: None, parent_key: Some("target-fourneau"), season_key: "season-autumn", dec: -3720 },
        Target { target_type: TargetType::Galaxy, id: Some("M65"), name_key: "target-m65", latin_key: "latin-leo", abbr: None, parent_key: Some("target-lion"), season_key: "season-spring", dec: 1309 },
        Target { target_type: TargetType::Galaxy, id: Some("M66"), name_key: "target-m66", latin_key: "latin-leo", abbr: None, parent_key: Some("target-lion"), season_key: "season-spring", dec: 1299 },
        Target { target_type: TargetType::Galaxy, id: Some("NGC 3628"), name_key: "target-ngc-3628", latin_key: "latin-leo", abbr: None, parent_key: Some("target-lion"), season_key: "season-spring", dec: 1359 },
        Target { target_type: TargetType::Galaxy, id: Some("M87"), name_key: "target-m87", latin_key: "latin-virgo", abbr: None, parent_key: Some("target-vierge"), season_key: "season-spring", dec: 1239 },
        Target { target_type: TargetType::Galaxy, id: Some("NGC 4038"), name_key: "target-ngc-4038", latin_key: "latin-corvus", abbr: None, parent_key: Some("target-corbeau"), season_key: "season-spring", dec: -1887 },
        Target { target_type: TargetType::Nebula, id: Some("M42"), name_key: "target-m42", latin_key: "latin-orion", abbr: None, parent_key: Some("target-orion"), season_key: "season-winter", dec: -539 },
        Target { target_type: TargetType::Nebula, id: Some("IC 434"), name_key: "target-ic-434", latin_key: "latin-orion", abbr: None, parent_key: Some("target-orion"), season_key: "season-winter", dec: -245 },
        Target { target_type: TargetType::Nebula, id: Some("NGC 2024"), name_key: "target-ngc-2024", latin_key: "latin-orion", abbr: None, parent_key: Some("target-orion"), season_key: "season-winter", dec: -186 },
        Target { target_type: TargetType::Nebula, id: Some("Sh2-276"), name_key: "target-sh2-276", latin_key: "latin-orion", abbr: None, parent_key: Some("target-orion"), season_key: "season-winter", dec: -100 },
        Target { target_type: TargetType::Nebula, id: Some("IC 2118"), name_key: "target-ic-2118", latin_key: "latin-eridanus", abbr: None, parent_key: Some("target-ridan"), season_key: "season-winter", dec: -725 },
        Target { target_type: TargetType::Nebula, id: Some("NGC 2237"), name_key: "target-ngc-2237", latin_key: "latin-monoceros", abbr: None, parent_key: Some("target-licorne"), season_key: "season-winter", dec: 497 },
        Target { target_type: TargetType::Nebula, id: Some("NGC 2264"), name_key: "target-ngc-2264", latin_key: "latin-monoceros", abbr: None, parent_key: Some("target-licorne"), season_key: "season-winter", dec: 989 },
        Target { target_type: TargetType::Nebula, id: Some("IC 405"), name_key: "target-ic-405", latin_key: "latin-auriga", abbr: None, parent_key: Some("target-cocher"), season_key: "season-winter", dec: 3435 },
        Target { target_type: TargetType::Nebula, id: Some("IC 443"), name_key: "target-ic-443", latin_key: "latin-gemini", abbr: None, parent_key: Some("target-gmeaux"), season_key: "season-winter", dec: 2247 },
        Target { target_type: TargetType::Nebula, id: Some("NGC 2174"), name_key: "target-ngc-2174", latin_key: "latin-orion", abbr: None, parent_key: Some("target-orion"), season_key: "season-winter", dec: 2050 },
        Target { target_type: TargetType::Nebula, id: Some("NGC 1499"), name_key: "target-ngc-1499", latin_key: "latin-perseus", abbr: None, parent_key: Some("target-perse"), season_key: "season-winter", dec: 3642 },
        Target { target_type: TargetType::Nebula, id: Some("NGC 3372"), name_key: "target-ngc-3372", latin_key: "latin-carina", abbr: None, parent_key: Some("target-carne"), season_key: "season-spring", dec: -5987 },
        Target { target_type: TargetType::Nebula, id: Some("IC 2944"), name_key: "target-ic-2944", latin_key: "latin-centaurus", abbr: None, parent_key: Some("target-centaure"), season_key: "season-spring", dec: -6302 },
        Target { target_type: TargetType::Nebula, id: Some("NGC 3576"), name_key: "target-ngc-3576", latin_key: "latin-carina", abbr: None, parent_key: Some("target-carne"), season_key: "season-spring", dec: -6130 },
        Target { target_type: TargetType::Nebula, id: Some("M97"), name_key: "target-m97", latin_key: "latin-ursa-major", abbr: None, parent_key: Some("target-grande-ourse"), season_key: "season-spring", dec: 5502 },
        Target { target_type: TargetType::Nebula, id: Some("NGC 3242"), name_key: "target-ngc-3242", latin_key: "latin-hydra", abbr: None, parent_key: Some("target-hydre"), season_key: "season-spring", dec: -1863 },
        Target { target_type: TargetType::Nebula, id: Some("M16"), name_key: "target-m16", latin_key: "latin-serpens", abbr: None, parent_key: Some("target-serpent"), season_key: "season-spring", dec: -1381 },
        Target { target_type: TargetType::Nebula, id: Some("M8"), name_key: "target-m8", latin_key: "latin-sagittarius", abbr: None, parent_key: Some("target-sagittaire"), season_key: "season-summer", dec: -2438 },
        Target { target_type: TargetType::Nebula, id: Some("M20"), name_key: "target-m20", latin_key: "latin-sagittarius", abbr: None, parent_key: Some("target-sagittaire"), season_key: "season-summer", dec: -2303 },
        Target { target_type: TargetType::Nebula, id: Some("M16"), name_key: "target-m16", latin_key: "latin-serpens", abbr: None, parent_key: Some("target-serpent"), season_key: "season-summer", dec: -1380 },
        Target { target_type: TargetType::Nebula, id: Some("M17"), name_key: "target-m17", latin_key: "latin-sagittarius", abbr: None, parent_key: Some("target-sagittaire"), season_key: "season-summer", dec: -1618 },
        Target { target_type: TargetType::Nebula, id: Some("IC 4604"), name_key: "target-ic-4604", latin_key: "latin-ophiuchus", abbr: None, parent_key: Some("target-ophiuchus"), season_key: "season-summer", dec: -2435 },
        Target { target_type: TargetType::Nebula, id: Some("NGC 6357"), name_key: "target-ngc-6357", latin_key: "latin-scorpius", abbr: None, parent_key: Some("target-scorpion"), season_key: "season-summer", dec: -3420 },
        Target { target_type: TargetType::Nebula, id: Some("NGC 6334"), name_key: "target-ngc-6334", latin_key: "latin-scorpius", abbr: None, parent_key: Some("target-scorpion"), season_key: "season-summer", dec: -3595 },
        Target { target_type: TargetType::Nebula, id: Some("NGC 7000"), name_key: "target-ngc-7000", latin_key: "latin-cygnus", abbr: None, parent_key: Some("target-cygne"), season_key: "season-summer", dec: 4433 },
        Target { target_type: TargetType::Nebula, id: Some("IC 5070"), name_key: "target-ic-5070", latin_key: "latin-cygnus", abbr: None, parent_key: Some("target-cygne"), season_key: "season-summer", dec: 4413 },
        Target { target_type: TargetType::Nebula, id: Some("NGC 6960"), name_key: "target-ngc-6960", latin_key: "latin-cygnus", abbr: None, parent_key: Some("target-cygne"), season_key: "season-summer", dec: 3070 },
        Target { target_type: TargetType::Nebula, id: Some("NGC 6992"), name_key: "target-ngc-6992", latin_key: "latin-cygnus", abbr: None, parent_key: Some("target-cygne"), season_key: "season-summer", dec: 3170 },
        Target { target_type: TargetType::Nebula, id: Some("NGC 6888"), name_key: "target-ngc-6888", latin_key: "latin-cygnus", abbr: None, parent_key: Some("target-cygne"), season_key: "season-summer", dec: 3835 },
        Target { target_type: TargetType::Nebula, id: Some("IC 1318"), name_key: "target-ic-1318", latin_key: "latin-cygnus", abbr: None, parent_key: Some("target-cygne"), season_key: "season-summer", dec: 4025 },
        Target { target_type: TargetType::Nebula, id: Some("LDN 673"), name_key: "target-ldn-673", latin_key: "latin-aquila", abbr: None, parent_key: Some("target-aigle"), season_key: "season-summer", dec: 100 },
        Target { target_type: TargetType::Nebula, id: Some("IC 1805"), name_key: "target-ic-1805", latin_key: "latin-cassiopeia", abbr: None, parent_key: Some("target-cassiope"), season_key: "season-autumn", dec: 6145 },
        Target { target_type: TargetType::Nebula, id: Some("IC 1848"), name_key: "target-ic-1848", latin_key: "latin-cassiopeia", abbr: None, parent_key: Some("target-cassiope"), season_key: "season-autumn", dec: 6040 },
        Target { target_type: TargetType::Nebula, id: Some("IC 1396"), name_key: "target-ic-1396", latin_key: "latin-cepheus", abbr: None, parent_key: Some("target-cphe"), season_key: "season-autumn", dec: 5750 },
        Target { target_type: TargetType::Nebula, id: Some("NGC 281"), name_key: "target-ngc-281", latin_key: "latin-cassiopeia", abbr: None, parent_key: Some("target-cassiope"), season_key: "season-autumn", dec: 5662 },
        Target { target_type: TargetType::Nebula, id: Some("NGC 7635"), name_key: "target-ngc-7635", latin_key: "latin-cassiopeia", abbr: None, parent_key: Some("target-cassiope"), season_key: "season-autumn", dec: 6120 },
        Target { target_type: TargetType::Nebula, id: Some("NGC 7023"), name_key: "target-ngc-7023", latin_key: "latin-cepheus", abbr: None, parent_key: Some("target-cphe"), season_key: "season-autumn", dec: 6816 },
        Target { target_type: TargetType::Nebula, id: Some("NGC 7293"), name_key: "target-ngc-7293", latin_key: "latin-aquarius", abbr: None, parent_key: Some("target-verseau"), season_key: "season-autumn", dec: -2080 },
        Target { target_type: TargetType::Cluster, id: Some("M45"), name_key: "target-m45", latin_key: "latin-taurus", abbr: None, parent_key: Some("target-taureau"), season_key: "season-winter", dec: 2412 },
        Target { target_type: TargetType::Cluster, id: Some("M44"), name_key: "target-m44", latin_key: "latin-cancer", abbr: None, parent_key: Some("target-cancer"), season_key: "season-spring", dec: 1967 },
        Target { target_type: TargetType::Cluster, id: Some("M35"), name_key: "target-m35", latin_key: "latin-gemini", abbr: None, parent_key: Some("target-gmeaux"), season_key: "season-winter", dec: 2433 },
        Target { target_type: TargetType::Cluster, id: Some("M36"), name_key: "target-m36", latin_key: "latin-auriga", abbr: None, parent_key: Some("target-cocher"), season_key: "season-winter", dec: 3413 },
        Target { target_type: TargetType::Cluster, id: Some("M37"), name_key: "target-m37", latin_key: "latin-auriga", abbr: None, parent_key: Some("target-cocher"), season_key: "season-winter", dec: 3255 },
        Target { target_type: TargetType::Cluster, id: Some("M38"), name_key: "target-m38", latin_key: "latin-auriga", abbr: None, parent_key: Some("target-cocher"), season_key: "season-winter", dec: 3583 },
        Target { target_type: TargetType::Cluster, id: Some("M41"), name_key: "target-m41", latin_key: "latin-canis-major", abbr: None, parent_key: Some("target-grand-chien"), season_key: "season-winter", dec: -2073 },
        Target { target_type: TargetType::Cluster, id: Some("NGC 869"), name_key: "target-ngc-869", latin_key: "latin-perseus", abbr: None, parent_key: Some("target-perse"), season_key: "season-autumn", dec: 5713 },
        Target { target_type: TargetType::Cluster, id: Some("NGC 884"), name_key: "target-ngc-884", latin_key: "latin-perseus", abbr: None, parent_key: Some("target-perse"), season_key: "season-autumn", dec: 5715 },
        Target { target_type: TargetType::Cluster, id: Some("NGC 2244"), name_key: "target-ngc-2244", latin_key: "latin-monoceros", abbr: None, parent_key: Some("target-licorne"), season_key: "season-winter", dec: 487 },
        Target { target_type: TargetType::Cluster, id: Some("M3"), name_key: "target-m3", latin_key: "latin-canes-venatici", abbr: None, parent_key: Some("target-chiens-de-chasse"), season_key: "season-spring", dec: 2838 },
        Target { target_type: TargetType::Cluster, id: Some("M5"), name_key: "target-m5", latin_key: "latin-serpens", abbr: None, parent_key: Some("target-serpent"), season_key: "season-spring", dec: 208 },
        Target { target_type: TargetType::Cluster, id: Some("M13"), name_key: "target-m13", latin_key: "latin-hercules", abbr: None, parent_key: Some("target-hercule"), season_key: "season-summer", dec: 3646 },
        Target { target_type: TargetType::Cluster, id: Some("M53"), name_key: "target-m53", latin_key: "latin-coma-berenices", abbr: None, parent_key: Some("target-chevelure-de-brnice"), season_key: "season-spring", dec: 1817 },
        Target { target_type: TargetType::Cluster, id: Some("NGC 5139"), name_key: "target-ngc-5139", latin_key: "latin-centaurus", abbr: None, parent_key: Some("target-centaure"), season_key: "season-spring", dec: -4748 },
        Target { target_type: TargetType::Cluster, id: Some("M11"), name_key: "target-m11", latin_key: "latin-scutum", abbr: None, parent_key: Some("target-cu-de-sobieski"), season_key: "season-summer", dec: -627 },
        Target { target_type: TargetType::Cluster, id: Some("M22"), name_key: "target-m22", latin_key: "latin-sagittarius", abbr: None, parent_key: Some("target-sagittaire"), season_key: "season-summer", dec: -2390 },
        Target { target_type: TargetType::Cluster, id: Some("M6"), name_key: "target-m6", latin_key: "latin-scorpius", abbr: None, parent_key: Some("target-scorpion"), season_key: "season-summer", dec: -3222 },
        Target { target_type: TargetType::Cluster, id: Some("M7"), name_key: "target-m7", latin_key: "latin-scorpius", abbr: None, parent_key: Some("target-scorpion"), season_key: "season-summer", dec: -3482 },
        Target { target_type: TargetType::Cluster, id: Some("M92"), name_key: "target-m92", latin_key: "latin-hercules", abbr: None, parent_key: Some("target-hercule"), season_key: "season-summer", dec: 4313 },
        Target { target_type: TargetType::Cluster, id: Some("NGC 6231"), name_key: "target-ngc-6231", latin_key: "latin-scorpius", abbr: None, parent_key: Some("target-scorpion"), season_key: "season-summer", dec: -4180 },
        Target { target_type: TargetType::Cluster, id: Some("M15"), name_key: "target-m15", latin_key: "latin-pegasus", abbr: None, parent_key: Some("target-pgase"), season_key: "season-autumn", dec: 1217 },
        Target { target_type: TargetType::Cluster, id: Some("M2"), name_key: "target-m2", latin_key: "latin-aquarius", abbr: None, parent_key: Some("target-verseau"), season_key: "season-autumn", dec: -82 },
        Target { target_type: TargetType::Cluster, id: Some("NGC 104"), name_key: "target-ngc-104", latin_key: "latin-tucana", abbr: None, parent_key: Some("target-toucan"), season_key: "season-autumn", dec: -7208 },
        Target { target_type: TargetType::Cluster, id: Some("M34"), name_key: "target-m34", latin_key: "latin-perseus", abbr: None, parent_key: Some("target-perse"), season_key: "season-autumn", dec: 4278 },
        Target { target_type: TargetType::Cluster, id: Some("NGC 457"), name_key: "target-ngc-457", latin_key: "latin-cassiopeia", abbr: None, parent_key: Some("target-cassiope"), season_key: "season-autumn", dec: 5833 },
    ]
}

} // verus!
