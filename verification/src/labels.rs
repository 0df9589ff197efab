//! The texts shown for targets: menu entries, the chart's target name and the
//! chart legend.
use vstd::prelude::*;

use crate::catalog::Target;
use crate::i18n::Translator;

verus! {

/// The text of a target's identifier, where it has one.
pub open spec fn id_text(target: Target) -> Option<Seq<char>> {
    match target.id {
        Some(i) => Some(i@),
        None => None,
    }
}

/// Text of a search result: `"{id} - {name}"` for a target with an
/// identifier, the name alone otherwise.
pub fn result_label(target: &Target, name: &str) -> (r: String)
    ensures
        r@ == match id_text(*target) {
            Some(i) => i + " - "@ + name@,
            None => name@,
        },
{
    match target.id {
        Some(id) => {
            let mut s = String::from_str(id);
            s.append(" - ");
            s.append(name);
            s
        },
        None => String::from_str(name),
    }
}

/// Text of an entry of the Messier menu: `"{id} - {name}"`, with an empty
/// identifier where the target has none.
pub fn messier_label(target: &Target, name: &str) -> (r: String)
    ensures
        r@ == match id_text(*target) {
            Some(i) => i,
            None => ""@,
        } + " - "@ + name@,
{
    let mut s = match target.id {
        Some(id) => String::from_str(id),
        None => String::from_str(""),
    };
    s.append(" - ");
    s.append(name);
    s
}

/// Text of the chart legend: `"{lens label} : {target name}"`.
pub fn legend_text(lens_label: &str, target_name: &str) -> (r: String)
    ensures
        r@ == lens_label@ + " : "@ + target_name@,
{
    let mut s = String::from_str(lens_label);
    s.append(" : ");
    s.append(target_name);
    s
}

/// The message id of the chart's name for the celestial equator.
pub open spec fn equator_label_id() -> Seq<char> {
    "chart-equator-label"@
}

/// The name the chart gives its target line: the selected target's
/// identifier, else its translated name; the equator's translated name
/// without a target. The equator's name is looked up in every case, so the
/// result is `None` where it is missing, and where a target without an
/// identifier has no translated name.
pub fn chart_target_name(translator: &Translator, language: &str, target: Option<&Target>) -> (r:
    Option<String>)
    requires
        translator.wf(),
        translator.formats(language@, equator_label_id(), None),
        target matches Some(t) ==> (id_text(*t) is None ==> translator.formats(
            language@,
            t.name_key@,
            None,
        )),
    ensures
        match translator.text(language@, equator_label_id()) {
            None => r is None,
            Some(eq) => match target {
                None => r is Some && r->0@ == eq,
                Some(t) => match id_text(*t) {
                    Some(i) => r is Some && r->0@ == i,
                    None => match translator.text(language@, t.name_key@) {
                        Some(n) => r is Some && r->0@ == n,
                        None => r is None,
                    },
                },
            },
        },
{
    let equator = translator.tr(language, "chart-equator-label")?;
    match target {
        None => Some(equator),
        Some(t) => match t.id {
            Some(id) => Some(String::from_str(id)),
            None => translator.tr(language, t.name_key),
        },
    }
}

} // verus!
