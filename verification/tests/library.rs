use npf_calc::catalog::{catalog, Target, TargetType, CATALOG_LEN};
use npf_calc::equipment::Equipment;
use npf_calc::filter::{search_results, targets_of_kind, SkyFilter};
use npf_calc::i18n::{season_filter_keys, season_message, type_message, I18nError, TargetLabels, Translator};
use npf_calc::labels::{chart_target_name, legend_text, messier_label, result_label};
use npf_calc::order::stable_order;
use npf_calc::render::{rgb_to_rgba, surface_steps, ChartLayout};
use npf_calc::text::{chars_of, contains_str, lex_le_chars, messier_number, parse_i32};

const EN: &str = "season-all = All seasons
season-spring = Spring
season-summer = Summer
season-autumn = Autumn
season-winter = Winter
season-circumpolar-n = Circumpolar N
season-circumpolar-s = Circumpolar S
type-constellation = Constellations
type-messier = Messier
type-nebula = Nebulae
type-galaxy = Galaxies
type-cluster = Clusters
chart-equator-label = Equator
name-a = Andromeda
latin-a = Andromedae
name-b = Orion
latin-b = Orionis
name-c = Cygnus
latin-c = Cygni
";

const FR: &str = "season-all = Toutes
season-spring = Printemps
season-summer = Été
chart-equator-label = Équateur
name-a = Andromède
";

fn translator() -> Translator {
    let mut t = Translator::new();
    assert_eq!(t.add_language("fr", FR.to_string()), Ok(()));
    assert_eq!(t.add_language("en", EN.to_string()), Ok(()));
    t
}

fn target(
    kind: TargetType,
    id: Option<&'static str>,
    name: &'static str,
    latin: &'static str,
    season: &'static str,
    dec: i32,
) -> Target {
    Target {
        target_type: kind,
        id,
        name_key: name,
        latin_key: latin,
        abbr: None,
        parent_key: None,
        season_key: season,
        dec,
    }
}

fn labels(name: &str, latin: &str, season: &str) -> TargetLabels {
    TargetLabels { name: name.to_string(), latin: latin.to_string(), season: season.to_string() }
}

fn filter(latitude: i32, season: &str, season_text: &str, query: &str) -> SkyFilter {
    SkyFilter {
        latitude,
        season: season.to_string(),
        season_text: season_text.to_string(),
        query: query.to_string(),
    }
}

#[test]
fn catalog_has_all_targets_with_valid_declinations() {
    let c = catalog();
    assert_eq!(c.len(), CATALOG_LEN);
    assert_eq!(c.len(), 286);
    assert!(c.iter().all(|t| -9000 <= t.dec && t.dec <= 9000));
    assert_eq!(c[0].name_key, "target-andromde");
    assert_eq!(c[0].dec, 3700);
    let m31 = c.iter().find(|t| t.id == Some("M31")).unwrap();
    assert_eq!(m31.target_type, TargetType::Messier);
    let last = &c[c.len() - 1];
    assert_eq!(last.id, Some("NGC 457"));
    assert_eq!(last.dec, 5833);
}

#[test]
fn catalog_declinations_round_trip_to_degrees() {
    for t in catalog() {
        let degrees = t.dec as f64 / 100.0;
        assert!((degrees * 100.0 - t.dec as f64).abs() < 1e-6);
    }
}

#[test]
fn parse_i32_agrees_with_std() {
    let cases = [
        "42", "-0", "+7", "+", "-", "", "2147483647", "2147483648", "-2147483648",
        "-2147483649", "1a", "007", " 1", "99999999999999999999", "M31", "-12",
    ];
    for s in cases {
        assert_eq!(parse_i32(s), s.parse::<i32>().ok(), "input {:?}", s);
    }
    assert_eq!(parse_i32("31"), Some(31));
    assert_eq!(parse_i32("2147483648"), None);
    assert_eq!(parse_i32("-2147483648"), Some(i32::MIN));
}

#[test]
fn messier_numbers() {
    assert_eq!(messier_number(Some("M31")), 31);
    assert_eq!(messier_number(Some("M1")), 1);
    assert_eq!(messier_number(Some("NGC 224")), 0);
    assert_eq!(messier_number(Some("M")), 0);
    assert_eq!(messier_number(Some("Mx")), 0);
    assert_eq!(messier_number(Some("")), 0);
    assert_eq!(messier_number(None), 0);
}

#[test]
fn substring_search() {
    assert!(contains_str("season-circumpolaire-n", "circumpolaire"));
    assert!(!contains_str("season-circumpolar-n", "circumpolaire"));
    assert!(contains_str("abc", ""));
    assert!(contains_str("", ""));
    assert!(!contains_str("", "a"));
    assert!(contains_str("Andromède", "mède"));
    assert!(!contains_str("ab", "abc"));
    assert_eq!(chars_of("Été"), vec!['É', 't', 'é']);
}

#[test]
fn lexicographic_order_agrees_with_string_order() {
    let words = ["", "a", "ab", "b", "Zeta", "zeta", "Été", "Ete", "Orion", "Orio"];
    for a in words {
        for b in words {
            let expected = a.to_string() <= b.to_string();
            assert_eq!(lex_le_chars(&chars_of(a), &chars_of(b)), expected, "{:?} {:?}", a, b);
        }
    }
}

#[test]
fn stable_order_sorts_and_keeps_ties_in_place() {
    let keys: Vec<i32> = vec![3, 1, 2, 1, 3];
    assert_eq!(stable_order(&keys), vec![1, 3, 2, 0, 4]);
    let empty: Vec<i32> = vec![];
    assert_eq!(stable_order(&empty), Vec::<usize>::new());
    let names: Vec<Vec<char>> = vec![chars_of("b"), chars_of("a"), chars_of("b"), chars_of("")];
    assert_eq!(stable_order(&names), vec![3, 1, 0, 2]);
}

#[test]
fn translator_reads_own_language_then_english() {
    let t = translator();
    assert_eq!(t.tr("fr", "name-a"), Some("Andromède".to_string()));
    assert_eq!(t.tr("en", "name-a"), Some("Andromeda".to_string()));
    // A message missing from the French bundle is not read from English.
    assert_eq!(t.tr("fr", "name-b"), None);
    // A language without a bundle falls back to English.
    assert_eq!(t.tr("de", "name-b"), Some("Orion".to_string()));
    assert_eq!(t.tr("de", "nope"), None);
    assert_eq!(t.select_bundle("fr"), Some(0));
    assert_eq!(t.select_bundle("en"), Some(1));
    assert_eq!(t.select_bundle("de"), Some(1));
    assert_eq!(t.tr("en", "nope"), None);
}

#[test]
fn translator_without_english_has_no_fallback() {
    let mut t = Translator::new();
    assert_eq!(t.add_language("fr", FR.to_string()), Ok(()));
    assert_eq!(t.select_bundle("de"), None);
    assert_eq!(t.tr("de", "name-a"), None);
    assert_eq!(Translator::new().tr("en", "name-a"), None);
}

#[test]
fn adding_a_language_again_replaces_its_bundle() {
    let mut t = translator();
    assert_eq!(t.add_language("fr", "name-a = Autre\n".to_string()), Ok(()));
    assert_eq!(t.tr("fr", "name-a"), Some("Autre".to_string()));
    assert_eq!(t.tr("fr", "season-all"), None);
    assert_eq!(t.select_bundle("fr"), Some(0));
    assert_eq!(t.tr("en", "name-a"), Some("Andromeda".to_string()));
}

#[test]
fn adding_a_language_reports_each_error() {
    let mut t = translator();
    assert_eq!(t.add_language("en", "= broken\n".to_string()), Err(I18nError::InvalidResource));
    assert_eq!(t.add_language("not a tag!", "a = b\n".to_string()), Err(I18nError::InvalidLanguageTag));
    assert_eq!(
        t.add_language("en", "a = one\na = two\n".to_string()),
        Err(I18nError::ConflictingEntries)
    );
    // A failed addition leaves the translator as it was.
    assert_eq!(t.tr("en", "name-a"), Some("Andromeda".to_string()));
}

#[test]
fn translation_with_arguments() {
    let mut t = Translator::new();
    assert_eq!(t.add_language("en", "hi = Hello { $name }!\n".to_string()), Ok(()));
    let mut args = fluent::FluentArgs::new();
    args.set("name", "Vega");
    let text = t.tr_args("en", "hi", &args).unwrap();
    assert!(text.contains("Vega"));
    assert_eq!(t.tr_args("en", "nope", &args), None);
}

#[test]
fn season_and_kind_texts() {
    let t = translator();
    assert_eq!(season_message("Printemps"), Some("season-spring"));
    assert_eq!(season_message("Été"), Some("season-summer"));
    assert_eq!(season_message("Circumpolaire S"), Some("season-circumpolar-s"));
    assert_eq!(season_message("Spring"), None);
    let keys = season_filter_keys();
    assert_eq!(keys, vec!["Toutes", "Printemps", "Été", "Automne", "Hiver", "Circumpolaire N", "Circumpolaire S"]);
    assert!(keys.iter().all(|k| season_message(k).is_some()));
    assert_eq!(season_message("Toutes"), Some("season-all"));
    assert_eq!(t.season_tr("en", "Printemps"), Some("Spring".to_string()));
    assert_eq!(t.season_tr("fr", "Été"), Some("Été".to_string()));
    assert_eq!(t.season_tr("en", "Whatever"), Some("Whatever".to_string()));
    assert_eq!(t.season_tr("fr", "Hiver"), None);
    assert_eq!(type_message(TargetType::Galaxy), "type-galaxy");
    assert_eq!(t.type_tr("en", TargetType::Cluster), Some("Clusters".to_string()));
    assert_eq!(t.type_tr("fr", TargetType::Cluster), None);
}

#[test]
fn target_labels_need_every_text() {
    let t = translator();
    let a = target(TargetType::Constellation, None, "name-a", "latin-a", "season-autumn", 3700);
    let l = t.target_labels("en", &a).unwrap();
    assert_eq!(l.name, "Andromeda");
    assert_eq!(l.latin, "Andromedae");
    assert_eq!(l.season, "Autumn");
    assert!(t.target_labels("fr", &a).is_none());
    let all = t.catalog_labels("en", &vec![a, a]).unwrap();
    assert_eq!(all.len(), 2);
    let missing = target(TargetType::Nebula, None, "name-z", "latin-a", "season-autumn", 0);
    assert!(t.catalog_labels("en", &vec![a, missing]).is_none());
}

#[test]
fn sky_filter_reads_season_text() {
    let t = translator();
    let f = SkyFilter::new(&t, "en", 4500, "Printemps".to_string(), String::new()).unwrap();
    assert_eq!(f.season_text, "Spring");
    let all = SkyFilter::new(&t, "fr", 4500, "Toutes".to_string(), "x".to_string()).unwrap();
    assert_eq!(all.season_text, "");
    assert_eq!(all.query, "x");
    assert!(SkyFilter::new(&t, "fr", 4500, "Hiver".to_string(), String::new()).is_none());
    let other = SkyFilter::new(&t, "en", 0, "Other".to_string(), String::new()).unwrap();
    assert_eq!(other.season_text, "Other");
}

#[test]
fn visibility_by_latitude_and_season() {
    let south = target(TargetType::Constellation, None, "n", "l", "season-summer", -3400);
    let l = labels("Scorpius", "Scorpii", "Summer");
    // Latitude 45: a target at -34 is above -35.
    assert!(filter(4500, "Toutes", "", "").is_target_visible(&south, &l));
    // Latitude 45 with declination exactly 45 - 80 is hidden.
    let edge = target(TargetType::Constellation, None, "n", "l", "season-summer", -3500);
    assert!(!filter(4500, "Toutes", "", "").is_target_visible(&edge, &l));
    assert!(filter(4500, "Toutes", "", "").is_too_low(&edge));
    assert!(!filter(4500, "Toutes", "", "").is_too_low(&south));
    // Latitude 50: -34 is below -30.
    assert!(!filter(5000, "Toutes", "", "").is_target_visible(&south, &l));
    // Season filter compares translated texts.
    assert!(filter(0, "Été", "Summer", "").is_target_visible(&south, &l));
    assert!(!filter(0, "Hiver", "Winter", "").is_target_visible(&south, &l));
    // A season key naming the circumpolar season passes any season.
    let circ = target(TargetType::Constellation, None, "n", "l", "season-circumpolaire", 8000);
    assert!(filter(0, "Hiver", "Winter", "").is_target_visible(&circ, &l));
    // The catalogue's circumpolar keys are spelled in English and do not.
    let circ_n = target(TargetType::Constellation, None, "n", "l", "season-circumpolar-n", 8000);
    assert!(!filter(0, "Hiver", "Winter", "").is_target_visible(&circ_n, &l));
}

#[test]
fn hidden_reason_messages() {
    let t = target(TargetType::Messier, Some("M7"), "n", "l", "season-summer", -3482);
    let l = labels("Ptolemy", "Scorpii", "Summer");
    assert_eq!(filter(0, "Toutes", "", "").hidden_reason(&t, &l), None);
    assert_eq!(filter(0, "Hiver", "Winter", "").hidden_reason(&t, &l), Some("target-out-of-season"));
    assert_eq!(filter(6000, "Toutes", "", "").hidden_reason(&t, &l), Some("target-not-visible"));
    assert_eq!(filter(6000, "Été", "Summer", "").hidden_reason(&t, &l), Some("target-out-of-season"));
}

#[test]
fn search_is_case_insensitive() {
    let mut t = target(TargetType::Messier, Some("M31"), "n", "l", "season-autumn", 4127);
    t.abbr = Some("And");
    let l = labels("Andromeda Galaxy", "Andromedae", "Autumn");
    assert!(filter(0, "Toutes", "", "").matches_search(&t, &l));
    assert!(filter(0, "Toutes", "", "GALAXY").matches_search(&t, &l));
    assert!(filter(0, "Toutes", "", "m31").matches_search(&t, &l));
    assert!(filter(0, "Toutes", "", "edae").matches_search(&t, &l));
    assert!(filter(0, "Toutes", "", "AND").matches_search(&t, &l));
    assert!(!filter(0, "Toutes", "", "orion").matches_search(&t, &l));
    assert!(filter(0, "Toutes", "", "ÉTÉ").matches_search(
        &target(TargetType::Nebula, None, "n", "l", "s", 0),
        &labels("Nuit d'été", "x", "y")
    ));
}

#[test]
fn search_results_are_the_first_ten_matches() {
    let targets: Vec<Target> = (0..15)
        .map(|i| target(TargetType::Messier, None, "n", "l", "season-autumn", if i == 3 { -9000 } else { 0 }))
        .collect();
    let ls: Vec<TargetLabels> = (0..15).map(|i| labels(&format!("Star {}", i), "x", "Autumn")).collect();
    let f = filter(0, "Toutes", "", "star");
    assert_eq!(search_results(&f, &targets, &ls), vec![0, 1, 2, 4, 5, 6, 7, 8, 9, 10]);
    let f1 = filter(0, "Toutes", "", "star 1");
    assert_eq!(search_results(&f1, &targets, &ls), vec![1, 10, 11, 12, 13, 14]);
    let none = filter(0, "Toutes", "", "zzz");
    assert_eq!(search_results(&none, &targets, &ls), Vec::<usize>::new());
}

#[test]
fn kind_lists_are_sorted() {
    let targets = vec![
        target(TargetType::Messier, Some("M42"), "a", "l", "s", 0),
        target(TargetType::Constellation, None, "b", "l", "s", 0),
        target(TargetType::Messier, Some("M7"), "c", "l", "s", 0),
        target(TargetType::Messier, Some("NGC 1"), "d", "l", "s", 0),
        target(TargetType::Constellation, None, "e", "l", "s", 0),
        target(TargetType::Messier, Some("M7"), "f", "l", "s", -9000),
        target(TargetType::Constellation, None, "g", "l", "s", 0),
    ];
    let ls = vec![
        labels("Orion Nebula", "x", "s"),
        labels("Orion", "x", "s"),
        labels("Ptolemy", "x", "s"),
        labels("Odd", "x", "s"),
        labels("Cygnus", "x", "s"),
        labels("Hidden", "x", "s"),
        labels("Cygnus", "x", "s"),
    ];
    let f = filter(0, "Toutes", "", "");
    assert_eq!(targets_of_kind(&f, TargetType::Messier, &targets, &ls), vec![3, 2, 0]);
    assert_eq!(targets_of_kind(&f, TargetType::Constellation, &targets, &ls), vec![4, 6, 1]);
    assert_eq!(targets_of_kind(&f, TargetType::Galaxy, &targets, &ls), Vec::<usize>::new());
    let searching = filter(0, "Toutes", "", "cyg");
    assert_eq!(targets_of_kind(&searching, TargetType::Constellation, &targets, &ls), vec![4, 6]);
}

#[test]
fn catalogue_lists_for_autumn() {
    let c = catalog();
    let ls: Vec<TargetLabels> = c
        .iter()
        .map(|t| labels(t.name_key, t.latin_key, t.season_key))
        .collect();
    let f = filter(4500, "Automne", "season-autumn", "");
    let messier = targets_of_kind(&f, TargetType::Messier, &c, &ls);
    assert!(!messier.is_empty());
    let numbers: Vec<i32> = messier.iter().map(|&i| messier_number(c[i].id)).collect();
    assert!(numbers.windows(2).all(|w| w[0] <= w[1]));
    assert!(messier.iter().all(|&i| c[i].season_key == "season-autumn" && c[i].dec > 4500 - 8000));
}

#[test]
fn equipment_selection_and_removal() {
    let mut e = Equipment::new("a");
    assert_eq!(e.len(), 1);
    assert!(!e.remove(0));
    e.push("b");
    e.push("c");
    assert!(e.select(2));
    assert!(!e.select(3));
    assert_eq!(*e.selected_item(), "c");
    // Removing the last item moves the selection back to the first.
    assert!(e.remove(2));
    assert_eq!(e.selected_index(), 0);
    assert_eq!(e.as_vec(), &vec!["a", "b"]);
    // Removing before the selection keeps the selected position.
    assert!(e.select(1));
    assert!(e.remove(0));
    assert_eq!(e.selected_index(), 0);
    assert_eq!(*e.selected_item(), "b");
    assert!(!e.remove(5));
    assert!(e.set(0, "z"));
    assert!(!e.set(1, "y"));
    assert_eq!(e.into_parts(), (vec!["z"], 0));
}

#[test]
fn equipment_push_then_remove_last_restores() {
    let mut e = Equipment::from_parts(vec![1, 2, 3], 1).unwrap();
    e.push(4);
    assert!(e.remove(3));
    assert_eq!(e.as_vec(), &vec![1, 2, 3]);
    assert_eq!(e.selected_index(), 1);
    // Removing after the selection keeps the same item selected.
    assert!(e.remove(2));
    assert_eq!(*e.selected_item(), 2);
}

#[test]
fn equipment_from_parts_rejects_invalid_states() {
    assert!(Equipment::<u8>::from_parts(vec![], 0).is_none());
    assert!(Equipment::from_parts(vec![1u8], 1).is_none());
    assert!(Equipment::from_parts(vec![1u8, 2], 1).is_some());
}

#[test]
fn chart_layout_and_steps() {
    assert_eq!(surface_steps(15), 10);
    assert_eq!(surface_steps(29), 10);
    assert_eq!(surface_steps(30), 25);
    assert_eq!(surface_steps(25), 10);
    let l = ChartLayout::new(1200, 900);
    assert_eq!((l.bar_left, l.bar_top, l.bar_height, l.bar_width), (1080, 200, 500, 40));
    assert_eq!((l.legend_right, l.legend_bottom), (1160, 860));
    assert_eq!(l.level_label_row(0, 20), 700);
    assert_eq!(l.level_label_row(19, 20), 200);
    assert_eq!(l.level_label_row(1, 20), 700 - 26);
    assert_eq!(l.legend_left(150), 1160 - 150 - 40);
    let small = ChartLayout::new(100, 100);
    assert_eq!(small.bar_height, -300);
    assert_eq!(small.level_label_row(1, 20), 200 - 300 + 15);
}

#[test]
fn rgb_image_becomes_opaque_rgba() {
    let rgb = vec![1u8, 2, 3, 4, 5, 6, 7];
    assert_eq!(rgb_to_rgba(&rgb, 2), vec![1, 2, 3, 255, 4, 5, 6, 255]);
    assert_eq!(rgb_to_rgba(&rgb, 0), Vec::<u8>::new());
}

#[test]
fn target_texts() {
    let m = target(TargetType::Messier, Some("M42"), "name-b", "latin-b", "s", 0);
    let c = target(TargetType::Constellation, None, "name-a", "latin-a", "s", 0);
    assert_eq!(result_label(&m, "Orion Nebula"), "M42 - Orion Nebula");
    assert_eq!(result_label(&c, "Andromeda"), "Andromeda");
    assert_eq!(messier_label(&m, "Orion Nebula"), "M42 - Orion Nebula");
    assert_eq!(messier_label(&c, "Andromeda"), " - Andromeda");
    assert_eq!(legend_text("Lens", "M42"), "Lens : M42");
    let t = translator();
    assert_eq!(chart_target_name(&t, "en", Some(&m)), Some("M42".to_string()));
    assert_eq!(chart_target_name(&t, "fr", Some(&c)), Some("Andromède".to_string()));
    assert_eq!(chart_target_name(&t, "en", None), Some("Equator".to_string()));
    assert_eq!(chart_target_name(&t, "fr", None), Some("Équateur".to_string()));
    let no_name = target(TargetType::Nebula, None, "name-z", "l", "s", 0);
    assert_eq!(chart_target_name(&t, "en", Some(&no_name)), None);
    assert_eq!(chart_target_name(&Translator::new(), "en", Some(&m)), None);
}

#[test]
fn inserting_a_bundle_is_read_back() {
    let mut t = translator();
    let resource = fluent::FluentResource::try_new("name-a = Andromeda (de)\n".to_string()).unwrap();
    let lang: unic_langid::LanguageIdentifier = "de".parse().unwrap();
    let mut bundle = fluent::FluentBundle::new(vec![lang]);
    bundle.add_resource(resource).unwrap();
    t.insert("de".to_string(), bundle);
    assert_eq!(t.tr("de", "name-a"), Some("Andromeda (de)".to_string()));
    assert_eq!(t.tr("de", "name-b"), None);
    assert_eq!(t.select_bundle("de"), Some(2));
    assert_eq!(t.tr("fr", "name-a"), Some("Andromède".to_string()));
}

#[test]
fn translation_with_empty_arguments_equals_plain_text() {
    let t = translator();
    let args = fluent::FluentArgs::new();
    assert_eq!(t.tr_args("en", "name-a", &args), t.tr("en", "name-a"));
    assert_eq!(t.tr_args("de", "name-b", &args), t.tr("de", "name-b"));
    assert_eq!(t.tr_args("fr", "name-b", &args), None);
}

#[test]
fn simple_language_tags_are_accepted() {
    let mut t = Translator::new();
    for tag in ["fr", "en", "FR", "und", "abcde", "deu"] {
        assert_eq!(t.add_language(tag, "m = x\n".to_string()), Ok(()), "tag {:?}", tag);
    }
    assert_eq!(t.add_language("abcd", "m = x\n".to_string()), Err(I18nError::InvalidLanguageTag));
    assert_eq!(t.add_language("a", "m = x\n".to_string()), Err(I18nError::InvalidLanguageTag));
    assert_eq!(t.tr("FR", "m"), Some("x".to_string()));
}

#[test]
fn search_case_and_shorter_queries() {
    let t = target(TargetType::Nebula, Some("NGC 7000"), "n", "l", "s", 0);
    let l = labels("North America Nebula", "Cygni", "Summer");
    for (q, expected) in [("america", true), ("AMERICA", true), ("ngc 7", true), ("NGC 7", true), ("orion", false), ("ORION", false)] {
        assert_eq!(filter(0, "Toutes", "", q).matches_search(&t, &l), expected, "{:?}", q);
    }
    // A shorter search keeps every match of a longer one.
    assert!(filter(0, "Toutes", "", "north america").matches_search(&t, &l));
    assert!(filter(0, "Toutes", "", "rth am").matches_search(&t, &l));
    assert!(filter(0, "Toutes", "", "").matches_search(&t, &l));
}
