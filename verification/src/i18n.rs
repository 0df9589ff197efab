//! Translations: one Fluent message bundle per language, looked up with a
//! fallback to English, and the message ids of seasons and target kinds.
use vstd::prelude::*;

use crate::catalog::{Target, TargetType};
use crate::text::{ascii_lowered, occurs_in};

verus! {

#[verifier::external_type_specification]
#[verifier::external_body]
pub struct ExFluentResource(fluent::FluentResource);

#[verifier::external_type_specification]
#[verifier::external_body]
#[verifier::reject_recursive_types(R)]
#[verifier::reject_recursive_types(M)]
pub struct ExFluentBundle<R, M>(fluent::bundle::FluentBundle<R, M>);

#[verifier::external_type_specification]
#[verifier::external_body]
pub struct ExIntlLangMemoizer(intl_memoizer::IntlLangMemoizer);

#[verifier::external_type_specification]
#[verifier::external_body]
pub struct ExFluentArgs<'a>(fluent::FluentArgs<'a>);

/// A Fluent bundle holding the messages of one language.
pub type Bundle = fluent::FluentBundle<fluent::FluentResource>;

/// What a bundle holds, read as texts: each message id that has a value,
/// mapped to that value formatted without arguments.
pub uninterp spec fn bundle_texts(bundle: Bundle) -> Map<Seq<char>, Seq<char>>;

/// The keys of a bundle's entries: its messages and terms (a term's without
/// its leading `-`), and any functions added to it (this library adds none).
pub uninterp spec fn bundle_entry_ids(bundle: Bundle) -> Set<Seq<char>>;

/// The text of a bundle's locale while the bundle is as `FluentBundle::new`
/// made it (one locale, no resource added, default settings); `None` once
/// it is not.
pub uninterp spec fn fresh_locale(bundle: Bundle) -> Option<Seq<char>>;

/// Whether formatting the message `id` of a bundle with
/// `FluentBundle::format_pattern`, without arguments (`None`) or with the
/// given ones, returns normally. Fluent can panic there, for instance on a
/// plural selection over a number literal with twenty or more fraction
/// digits.
pub uninterp spec fn formats_normally(
    bundle: Bundle,
    id: Seq<char>,
    args: Option<fluent::FluentArgs>,
) -> bool;

/// The text `FluentBundle::format_pattern` makes of the value of the message
/// `id` of a bundle with the given arguments. It depends on the bundle, the
/// id and the arguments alone (their values included, which this library
/// only ever makes strings and numbers).
pub uninterp spec fn formatted_text(bundle: Bundle, id: Seq<char>, args: fluent::FluentArgs) -> Seq<
    char,
>;

/// The names of the arguments an argument list holds.
pub uninterp spec fn args_keys(args: fluent::FluentArgs) -> Seq<Seq<char>>;

/// The ids of the message and term entries of a parsed resource, in source
/// order (a term's without its leading `-`).
pub uninterp spec fn resource_entry_ids(resource: fluent::FluentResource) -> Seq<Seq<char>>;

/// The FTL source text a resource was parsed from.
pub uninterp spec fn resource_source(resource: fluent::FluentResource) -> Seq<char>;

/// The result of parsing an FTL source with `FluentResource::try_new`: the
/// entry ids of the resource where it parses without error, `None` where it
/// reports errors.
pub uninterp spec fn ftl_entry_ids(source: Seq<char>) -> Option<Seq<Seq<char>>>;

/// The texts (as `bundle_texts` reads them) of a bundle for the locale
/// `locale`, with fluent's default settings, holding exactly the resource
/// parsed from `source`.
pub uninterp spec fn ftl_texts(locale: Seq<char>, source: Seq<char>) -> Map<Seq<char>, Seq<char>>;

/// The text (`to_string`) of the language identifier that
/// `LanguageIdentifier::from_str` makes of a tag; `None` where it rejects
/// the tag.
pub uninterp spec fn language_tag(tag: Seq<char>) -> Option<Seq<char>>;

/// A character that FTL reads as blank between two braces, or one more.
pub open spec fn is_blank(c: char) -> bool {
    c == ' ' || c == '\n' || c == '\r' || c == '\t'
}

/// An FTL source with no selection (`->`) and no placeable opened directly
/// inside another (`{` then only blanks then `{`): the two constructs on
/// which fluent's formatting can panic.
pub open spec fn plain_ftl(source: Seq<char>) -> bool {
    &&& !occurs_in("->"@, source)
    &&& !exists|i: int, j: int|
        0 <= i < j < source.len() && #[trigger] source[i] == '{' && #[trigger] source[j] == '{'
            && forall|k: int| i < k < j ==> is_blank(#[trigger] source[k])
}

/// A tag of one language subtag: 2, 3 or 5 to 8 ASCII letters.
pub open spec fn simple_language_tag(tag: Seq<char>) -> bool {
    &&& (2 <= tag.len() <= 3 || 5 <= tag.len() <= 8)
    &&& forall|i: int|
        0 <= i < tag.len() ==> ('a' <= #[trigger] tag[i] && tag[i] <= 'z') || ('A' <= tag[i]
            && tag[i] <= 'Z')
}

/// Parses a language tag with `str::parse::<LanguageIdentifier>`
/// (`unic_langid`) and makes a bundle for it with `FluentBundle::new`.
/// Claims what their sources show: the tag is accepted exactly where the
/// named parse succeeds, which it does for a tag of one language subtag
/// (whose text is then the tag in lower case); the new bundle holds no entry
/// and no text, is fresh for the parsed locale, and formats any id normally
/// (having no message, it formats nothing).
#[verifier::external_body]
fn new_bundle(tag: &str) -> (r: Option<Bundle>)
    ensures
        r is Some <==> language_tag(tag@) is Some,
        simple_language_tag(tag@) ==> r is Some,
        r matches Some(b) ==> (simple_language_tag(tag@) ==> fresh_locale(b) == Some(
            ascii_lowered(tag@),
        )),
        r matches Some(b) ==> bundle_texts(b).dom() == Set::<Seq<char>>::empty(),
        r matches Some(b) ==> bundle_entry_ids(b) == Set::<Seq<char>>::empty(),
        r matches Some(b) ==> fresh_locale(b) == language_tag(tag@),
        r matches Some(b) ==> forall|id: Seq<char>, args: Option<fluent::FluentArgs>|
            #[trigger] formats_normally(b, id, args),
{
    let locale = tag.parse::<unic_langid::LanguageIdentifier>().ok()?;
    Some(fluent::FluentBundle::new(vec![locale]))
}

/// Calls `FluentResource::try_new`. Claims that it succeeds exactly where the
/// source parses without error, and that the resource then holds the entries
/// the parse names and keeps its source.
#[verifier::external_body]
fn parse_ftl(source: String) -> (r: Option<fluent::FluentResource>)
    ensures
        r is Some <==> ftl_entry_ids(source@) is Some,
        r matches Some(res) ==> resource_entry_ids(res) == ftl_entry_ids(source@)->0,
        r matches Some(res) ==> resource_source(res) == source@,
{
    fluent::FluentResource::try_new(source).ok()
}

/// Calls `FluentBundle::add_resource`. Claims what its source shows: it fails
/// exactly where an entry id of the resource is already in the bundle or
/// occurs twice in the resource, and in either case the bundle afterwards
/// holds the entry ids it held and those of the resource and is no longer
/// fresh. Added with success to a fresh bundle, the bundle's texts are those
/// of its locale and the resource's source. What an added resource does to
/// the texts of a bundle that was not fresh is not stated. A fresh bundle
/// that took a resource of a plain source (no selection, no placeable
/// directly inside another) formats each of its messages normally without
/// arguments: with no function, transform or formatter set, fluent's
/// panics are reached only through those two constructs.
#[verifier::external_body]
fn add_resource(bundle: &mut Bundle, resource: fluent::FluentResource) -> (ok: bool)
    ensures
        ok == (resource_entry_ids(resource).no_duplicates() && forall|i: int|
            0 <= i < resource_entry_ids(resource).len() ==> !bundle_entry_ids(*old(bundle)).contains(
                #[trigger] resource_entry_ids(resource)[i],
            )),
        bundle_entry_ids(*final(bundle)) == bundle_entry_ids(*old(bundle)).union(
            resource_entry_ids(resource).to_set(),
        ),
        fresh_locale(*final(bundle)) is None,
        ok && fresh_locale(*old(bundle)) is Some ==> bundle_texts(*final(bundle)) == ftl_texts(
            fresh_locale(*old(bundle))->0,
            resource_source(resource),
        ),
        ok && fresh_locale(*old(bundle)) is Some && plain_ftl(resource_source(resource))
            ==> forall|id: Seq<char>| #[trigger] formats_normally(*final(bundle), id, None),
{
    bundle.add_resource(resource).is_ok()
}

/// Looks a message up with `FluentBundle::get_message`, takes its value and
/// formats it with `FluentBundle::format_pattern`, where that returns
/// normally. Claims that a text is returned exactly where the bundle has a
/// message with a value under the id; that without arguments, or with an
/// empty argument list, it is the bundle's text for the id; and that with
/// arguments it is the text the bundle formats for the id and arguments.
#[verifier::external_body]
fn format_message(bundle: &Bundle, id: &str, args: Option<&fluent::FluentArgs>) -> (r: Option<
    String,
>)
    requires
        formats_normally(
            *bundle,
            id@,
            match args {
                Some(a) => Some(*a),
                None => None,
            },
        ),
    ensures
        r is Some <==> bundle_texts(*bundle).dom().contains(id@),
        args is None ==> (r matches Some(s) ==> s@ == bundle_texts(*bundle)[id@]),
        args matches Some(a) && args_keys(*a).len() == 0 ==> (r matches Some(s) ==> s@
            == bundle_texts(*bundle)[id@]),
        args matches Some(a) ==> (r matches Some(s) ==> s@ == formatted_text(*bundle, id@, *a)),
{
    let pattern = bundle.get_message(id).and_then(|m| m.value())?;
    let mut errors = vec![];
    Some(bundle.format_pattern(pattern, args, &mut errors).to_string())
}

/// Why a language could not be added to a translator.
#[derive(Debug, Clone, Copy, PartialEq, Eq, Structural)]
pub enum I18nError {
    /// The FTL source does not parse.
    InvalidResource,
    /// The language tag does not parse.
    InvalidLanguageTag,
    /// The FTL source defines an entry id twice.
    ConflictingEntries,
}

/// Whether two texts are equal.
pub fn same_text(a: &str, b: &str) -> (r: bool)
    ensures
        r == (a@ == b@),
{
    a.to_owned() == b.to_owned()
}

/// The index of `l` in `langs`, where it occurs.
pub open spec fn index_in(langs: Seq<Seq<char>>, l: Seq<char>) -> Option<int> {
    if exists|i: int| 0 <= i < langs.len() && langs[i] == l {
        Some(choose|i: int| 0 <= i < langs.len() && langs[i] == l)
    } else {
        None
    }
}

/// The message bundles of a set of languages, each language at most once.
pub struct Translator {
    languages: Vec<String>,
    bundles: Vec<Bundle>,
}

impl Translator {
    /// The languages, in the order they were first added.
    pub closed spec fn languages(self) -> Seq<Seq<char>> {
        self.languages@.map_values(|l: String| l@)
    }

    /// The texts of each language's bundle, aligned with `languages`.
    pub closed spec fn texts(self) -> Seq<Map<Seq<char>, Seq<char>>> {
        self.bundles@.map_values(|b: Bundle| bundle_texts(b))
    }

    /// The entry ids of each language's bundle, aligned with `languages`.
    pub closed spec fn entry_ids(self) -> Seq<Set<Seq<char>>> {
        self.bundles@.map_values(|b: Bundle| bundle_entry_ids(b))
    }

    /// Each language has one bundle, and no language occurs twice.
    pub closed spec fn wf(self) -> bool {
        &&& self.languages@.len() == self.bundles@.len()
        &&& self.languages().no_duplicates()
    }

    /// The bundle used for `language`: its own, or else the English one.
    pub open spec fn bundle_for(self, language: Seq<char>) -> Option<int> {
        match index_in(self.languages(), language) {
            Some(i) => Some(i),
            None => index_in(self.languages(), "en"@),
        }
    }

    /// The text of message `id` for `language`, where its bundle has one.
    pub open spec fn text(self, language: Seq<char>, id: Seq<char>) -> Option<Seq<char>> {
        match self.bundle_for(language) {
            Some(i) => if self.texts()[i].dom().contains(id) {
                Some(self.texts()[i][id])
            } else {
                None
            },
            None => None,
        }
    }

    /// Formatting message `id` in the bundle used for `language` (with the
    /// given arguments, or none) returns normally; nothing is formatted where
    /// no bundle is used.
    pub closed spec fn formats(
        self,
        language: Seq<char>,
        id: Seq<char>,
        args: Option<fluent::FluentArgs>,
    ) -> bool {
        match self.bundle_for(language) {
            Some(i) => self.formats_at(i, id, args),
            None => true,
        }
    }

    /// Formatting message `id` in the bundle at index `i` returns normally.
    pub closed spec fn formats_at(
        self,
        i: int,
        id: Seq<char>,
        args: Option<fluent::FluentArgs>,
    ) -> bool {
        formats_normally(self.bundles@[i], id, args)
    }

    /// The text of message `id` for `language` formatted with `args`, where
    /// the bundle used for `language` has the message.
    pub closed spec fn args_text(
        self,
        language: Seq<char>,
        id: Seq<char>,
        args: fluent::FluentArgs,
    ) -> Option<Seq<char>> {
        match self.bundle_for(language) {
            Some(i) => if bundle_texts(self.bundles@[i]).dom().contains(id) {
                Some(formatted_text(self.bundles@[i], id, args))
            } else {
                None
            },
            None => None,
        }
    }

    proof fn lemma_views(self)
        requires
            self.wf(),
        ensures
            self.languages().len() == self.languages@.len(),
            self.texts().len() == self.languages@.len(),
            self.entry_ids().len() == self.languages@.len(),
            forall|i: int|
                0 <= i < self.languages@.len() ==> #[trigger] self.languages()[i]
                    == self.languages@[i]@,
            forall|i: int|
                0 <= i < self.languages@.len() ==> #[trigger] self.texts()[i] == bundle_texts(
                    self.bundles@[i],
                ),
            forall|i: int|
                0 <= i < self.languages@.len() ==> #[trigger] self.entry_ids()[i]
                    == bundle_entry_ids(self.bundles@[i]),
    {
    }

    /// A translator without any language.
    pub fn new() -> (t: Translator)
        ensures
            t.wf(),
            t.languages() == Seq::<Seq<char>>::empty(),
    {
        let t = Translator { languages: Vec::new(), bundles: Vec::new() };
        assert(t.languages() =~= Seq::<Seq<char>>::empty());
        t
    }

    /// The index of `language` among the languages, where present.
    fn index_of(&self, language: &str) -> (r: Option<usize>)
        requires
            self.wf(),
        ensures
            match r {
                Some(i) => index_in(self.languages(), language@) == Some(i as int),
                None => index_in(self.languages(), language@) is None,
            },
    {
        proof {
            self.lemma_views();
        }
        let wanted = language.to_owned();
        let mut i: usize = 0;
        while i < self.languages.len()
            invariant
                self.wf(),
                i <= self.languages@.len(),
                wanted@ == language@,
                self.languages().len() == self.languages@.len(),
                forall|k: int|
                    0 <= k < self.languages@.len() ==> #[trigger] self.languages()[k]
                        == self.languages@[k]@,
                forall|j: int| 0 <= j < i ==> self.languages()[j] != language@,
            decreases self.languages@.len() - i,
        {
            if self.languages[i] == wanted {
                proof {
                    let c = choose|k: int|
                        0 <= k < self.languages().len() && self.languages()[k] == language@;
                    assert(self.languages()[i as int] == language@);
                    assert(self.languages().no_duplicates());
                    assert(c == i);
                }
                return Some(i);
            }
            i = i + 1;
        }
        None
    }

    /// Adds the bundle of a language, replacing the one it had (as a map
    /// keyed by language does).
    pub fn insert(&mut self, language: String, bundle: Bundle)
        requires
            old(self).wf(),
        ensures
            final(self).wf(),
            match index_in(old(self).languages(), language@) {
                Some(i) => {
                    &&& final(self).languages() == old(self).languages()
                    &&& final(self).texts() == old(self).texts().update(i, bundle_texts(bundle))
                    &&& final(self).entry_ids() == old(self).entry_ids().update(
                        i,
                        bundle_entry_ids(bundle),
                    )
                    &&& forall|id: Seq<char>, args: Option<fluent::FluentArgs>|
                        #[trigger] final(self).formats_at(i, id, args) == formats_normally(
                            bundle,
                            id,
                            args,
                        )
                },
                None => {
                    &&& final(self).languages() == old(self).languages().push(language@)
                    &&& final(self).texts() == old(self).texts().push(bundle_texts(bundle))
                    &&& final(self).entry_ids() == old(self).entry_ids().push(
                        bundle_entry_ids(bundle),
                    )
                    &&& forall|id: Seq<char>, args: Option<fluent::FluentArgs>|
                        #[trigger] final(self).formats_at(
                            old(self).languages().len() as int,
                            id,
                            args,
                        ) == formats_normally(bundle, id, args)
                },
            },
            forall|j: int, id: Seq<char>, args: Option<fluent::FluentArgs>|
                0 <= j < old(self).languages().len() && index_in(old(self).languages(), language@)
                    != Some(j) ==> #[trigger] final(self).formats_at(j, id, args)
                    == old(self).formats_at(j, id, args),
    {
        proof {
            self.lemma_views();
        }
        match self.index_of(language.as_str()) {
            Some(i) => {
                self.bundles.set(i, bundle);
                assert(self.languages() =~= old(self).languages());
                assert(self.texts() =~= old(self).texts().update(i as int, bundle_texts(bundle)));
                assert(self.entry_ids() =~= old(self).entry_ids().update(
                    i as int,
                    bundle_entry_ids(bundle),
                ));
            },
            None => {
                let ghost l = language@;
                self.languages.push(language);
                self.bundles.push(bundle);
                assert(self.languages() =~= old(self).languages().push(l));
                assert(self.texts() =~= old(self).texts().push(bundle_texts(bundle)));
                assert(self.entry_ids() =~= old(self).entry_ids().push(bundle_entry_ids(bundle)));
                assert(!old(self).languages().contains(l));
            },
        }
    }

    /// Parses the FTL `source` of the language tagged `tag` into a bundle and
    /// adds it under the language `tag`, replacing any bundle it had. Every
    /// other bundle stays as it was; where the source is plain, each message
    /// of the new bundle formats normally without arguments.
    pub fn add_language(&mut self, tag: &str, source: String) -> (r: Result<(), I18nError>)
        requires
            old(self).wf(),
        ensures
            final(self).wf(),
            ftl_entry_ids(source@) is None ==> (r matches Err(e) && e == I18nError::InvalidResource),
            ftl_entry_ids(source@) is Some && language_tag(tag@) is None ==> (r matches Err(e) && e
                == I18nError::InvalidLanguageTag),
            ftl_entry_ids(source@) is Some && language_tag(tag@) is Some ==> (r is Ok
                <==> ftl_entry_ids(source@)->0.no_duplicates()),
            ftl_entry_ids(source@) is Some && language_tag(tag@) is Some
                && !ftl_entry_ids(source@)->0.no_duplicates() ==> (r matches Err(e) && e
                == I18nError::ConflictingEntries),
            ftl_entry_ids(source@) is Some && simple_language_tag(tag@) ==> (r is Ok
                <==> ftl_entry_ids(source@)->0.no_duplicates()),
            r is Err ==> *final(self) == *old(self),
            r is Ok ==> match index_in(old(self).languages(), tag@) {
                Some(i) => {
                    &&& final(self).languages() == old(self).languages()
                    &&& final(self).texts() == old(self).texts().update(
                        i,
                        ftl_texts(language_tag(tag@)->0, source@),
                    )
                    &&& final(self).entry_ids() == old(self).entry_ids().update(
                        i,
                        ftl_entry_ids(source@)->0.to_set(),
                    )
                },
                None => {
                    &&& final(self).languages() == old(self).languages().push(tag@)
                    &&& final(self).texts() == old(self).texts().push(
                        ftl_texts(language_tag(tag@)->0, source@),
                    )
                    &&& final(self).entry_ids() == old(self).entry_ids().push(
                        ftl_entry_ids(source@)->0.to_set(),
                    )
                },
            },
            r is Ok && plain_ftl(source@) ==> forall|language: Seq<char>, id: Seq<char>|
                final(self).bundle_for(language) == index_in(final(self).languages(), tag@)
                    ==> #[trigger] final(self).formats(language, id, None),
            r is Ok ==> forall|language: Seq<char>, id: Seq<char>, args: Option<fluent::FluentArgs>|
                final(self).bundle_for(language) == old(self).bundle_for(language)
                    && final(self).bundle_for(language) != index_in(final(self).languages(), tag@)
                    ==> #[trigger] final(self).formats(language, id, args) == old(self).formats(
                    language,
                    id,
                    args,
                ),
    {
        let ghost src = source@;
        let resource = match parse_ftl(source) {
            Some(res) => res,
            None => {
                return Err(I18nError::InvalidResource);
            },
        };
        let mut bundle = match new_bundle(tag) {
            Some(b) => b,
            None => {
                return Err(I18nError::InvalidLanguageTag);
            },
        };
        let ghost ids = resource_entry_ids(resource);
        if !add_resource(&mut bundle, resource) {
            return Err(I18nError::ConflictingEntries);
        }
        assert(bundle_entry_ids(bundle) =~= ids.to_set());
        assert(bundle_texts(bundle) == ftl_texts(language_tag(tag@)->0, src));
        self.insert(tag.to_owned(), bundle);
        Ok(())
    }

    /// The index of the bundle used for `language`: its own, or else the
    /// English one.
    pub fn select_bundle(&self, language: &str) -> (r: Option<usize>)
        requires
            self.wf(),
        ensures
            match r {
                Some(i) => self.bundle_for(language@) == Some(i as int),
                None => self.bundle_for(language@) is None,
            },
    {
        match self.index_of(language) {
            Some(i) => Some(i),
            None => self.index_of("en"),
        }
    }

    /// The text of message `id` in `language`, falling back to English for a
    /// language without a bundle; `None` where no bundle is found, or the
    /// bundle has no such message or the message no value (the cases in
    /// which a missing translation is an error for the caller to report).
    pub fn tr(&self, language: &str, id: &str) -> (r: Option<String>)
        requires
            self.wf(),
            self.formats(language@, id@, None),
        ensures
            match r {
                Some(s) => self.text(language@, id@) == Some(s@),
                None => self.text(language@, id@) is None,
            },
    {
        proof {
            self.lemma_views();
        }
        match self.select_bundle(language) {
            Some(i) => format_message(&self.bundles[i], id, None),
            None => None,
        }
    }

    /// As `tr`, formatting the message with arguments: the text the bundle
    /// used for `language` formats for the message and the arguments, present
    /// exactly where `tr` gives a text (so `None` where no bundle is found,
    /// or the message or its value is missing), and `tr`'s text where the
    /// argument list is empty.
    pub fn tr_args(&self, language: &str, id: &str, args: &fluent::FluentArgs) -> (r: Option<
        String,
    >)
        requires
            self.wf(),
            self.formats(language@, id@, Some(*args)),
        ensures
            match r {
                Some(s) => self.args_text(language@, id@, *args) == Some(s@),
                None => self.args_text(language@, id@, *args) is None,
            },
            r is Some <==> self.text(language@, id@) is Some,
            args_keys(*args).len() == 0 ==> match r {
                Some(s) => self.text(language@, id@) == Some(s@),
                None => self.text(language@, id@) is None,
            },
    {
        proof {
            self.lemma_views();
        }
        match self.select_bundle(language) {
            Some(i) => format_message(&self.bundles[i], id, Some(args)),
            None => None,
        }
    }

    /// The display text of a season filter key: the key's message when it is
    /// one of the known season keys, the key itself otherwise.
    pub fn season_tr(&self, language: &str, season: &str) -> (r: Option<String>)
        requires
            self.wf(),
            season_message_id(season@) matches Some(id) ==> self.formats(language@, id, None),
        ensures
            match season_message_id(season@) {
                Some(id) => match r {
                    Some(s) => self.text(language@, id) == Some(s@),
                    None => self.text(language@, id) is None,
                },
                None => r is Some && r->0@ == season@,
            },
    {
        match season_message(season) {
            Some(id) => self.tr(language, id),
            None => {
                let s = season.to_owned();
                Some(s)
            },
        }
    }

    /// The display text of a target kind.
    pub fn type_tr(&self, language: &str, kind: TargetType) -> (r: Option<String>)
        requires
            self.wf(),
            self.formats(language@, type_message_id(kind), None),
        ensures
            match r {
                Some(s) => self.text(language@, type_message_id(kind)) == Some(s@),
                None => self.text(language@, type_message_id(kind)) is None,
            },
    {
        self.tr(language, type_message(kind))
    }

    /// The translated texts of a target; `None` where one is missing.
    pub fn target_labels(&self, language: &str, target: &Target) -> (r: Option<TargetLabels>)
        requires
            self.wf(),
            labels_format(*self, language@, *target),
        ensures
            r is Some <==> labels_exist(*self, language@, *target),
            r matches Some(l) ==> labels_match(*self, language@, *target, l),
    {
        let name = self.tr(language, target.name_key)?;
        let latin = self.tr(language, target.latin_key)?;
        let season = self.tr(language, target.season_key)?;
        Some(TargetLabels { name, latin, season })
    }

    /// The translated texts of each target of a list; `None` where one is
    /// missing.
    pub fn catalog_labels(&self, language: &str, targets: &Vec<Target>) -> (r: Option<
        Vec<TargetLabels>,
    >)
        requires
            self.wf(),
            forall|i: int|
                0 <= i < targets@.len() ==> labels_format(*self, language@, #[trigger] targets@[i]),
        ensures
            r is Some <==> forall|i: int|
                0 <= i < targets@.len() ==> labels_exist(*self, language@, #[trigger] targets@[i]),
            r matches Some(ls) ==> ls@.len() == targets@.len() && forall|i: int|
                0 <= i < targets@.len() ==> labels_match(
                    *self,
                    language@,
                    #[trigger] targets@[i],
                    ls@[i],
                ),
    {
        let mut out: Vec<TargetLabels> = Vec::new();
        let mut i: usize = 0;
        while i < targets.len()
            invariant
                self.wf(),
                i <= targets@.len(),
                out@.len() == i,
                forall|j: int|
                    0 <= j < targets@.len() ==> labels_format(*self, language@, #[trigger] targets@[j]),
                forall|j: int| 0 <= j < i ==> labels_exist(*self, language@, #[trigger] targets@[j]),
                forall|j: int|
                    0 <= j < i ==> labels_match(*self, language@, #[trigger] targets@[j], out@[j]),
            decreases targets@.len() - i,
        {
            match self.target_labels(language, &targets[i]) {
                Some(l) => out.push(l),
                None => {
                    return None;
                },
            }
            i = i + 1;
        }
        Some(out)
    }
}

/// The translated texts of a target that the search and filters read.
pub struct TargetLabels {
    pub name: String,
    pub latin: String,
    pub season: String,
}

/// The texts a target's labels need format normally.
pub open spec fn labels_format(t: Translator, language: Seq<char>, target: Target) -> bool {
    &&& t.formats(language, target.name_key@, None)
    &&& t.formats(language, target.latin_key@, None)
    &&& t.formats(language, target.season_key@, None)
}

/// Every text a target's labels need is present.
pub open spec fn labels_exist(t: Translator, language: Seq<char>, target: Target) -> bool {
    &&& t.text(language, target.name_key@) is Some
    &&& t.text(language, target.latin_key@) is Some
    &&& t.text(language, target.season_key@) is Some
}

/// `labels` hold the translated name, Latin name and season of `target`.
pub open spec fn labels_match(
    t: Translator,
    language: Seq<char>,
    target: Target,
    labels: TargetLabels,
) -> bool {
    &&& t.text(language, target.name_key@) == Some(labels.name@)
    &&& t.text(language, target.latin_key@) == Some(labels.latin@)
    &&& t.text(language, target.season_key@) == Some(labels.season@)
}

/// The message id of a season filter key ("Toutes" meaning every season).
pub open spec fn season_message_id(season: Seq<char>) -> Option<Seq<char>> {
    if season == "Toutes"@ {
        Some("season-all"@)
    } else if season == "Printemps"@ {
        Some("season-spring"@)
    } else if season == "Été"@ {
        Some("season-summer"@)
    } else if season == "Automne"@ {
        Some("season-autumn"@)
    } else if season == "Hiver"@ {
        Some("season-winter"@)
    } else if season == "Circumpolaire N"@ {
        Some("season-circumpolar-n"@)
    } else if season == "Circumpolaire S"@ {
        Some("season-circumpolar-s"@)
    } else {
        None
    }
}

/// The message id of a season filter key, where it is a known key.
pub fn season_message(season: &str) -> (r: Option<&'static str>)
    ensures
        match r {
            Some(id) => season_message_id(season@) == Some(id@),
            None => season_message_id(season@) is None,
        },
{
    if same_text(season, "Toutes") {
        Some("season-all")
    } else if same_text(season, "Printemps") {
        Some("season-spring")
    } else if same_text(season, "Été") {
        Some("season-summer")
    } else if same_text(season, "Automne") {
        Some("season-autumn")
    } else if same_text(season, "Hiver") {
        Some("season-winter")
    } else if same_text(season, "Circumpolaire N") {
        Some("season-circumpolar-n")
    } else if same_text(season, "Circumpolaire S") {
        Some("season-circumpolar-s")
    } else {
        None
    }
}

/// The season filter keys name their seasons' messages: "Toutes" every
/// season, "Printemps" spring, "Été" summer, "Automne" autumn, "Hiver"
/// winter, "Circumpolaire N" and "Circumpolaire S" the northern and southern
/// circumpolar targets; any other key has no message.
pub proof fn law_season_messages(other: Seq<char>)
    requires
        other != "Toutes"@,
        other != "Printemps"@,
        other != "Été"@,
        other != "Automne"@,
        other != "Hiver"@,
        other != "Circumpolaire N"@,
        other != "Circumpolaire S"@,
    ensures
        season_message_id("Toutes"@) == Some("season-all"@),
        season_message_id("Printemps"@) == Some("season-spring"@),
        season_message_id("Été"@) == Some("season-summer"@),
        season_message_id("Automne"@) == Some("season-autumn"@),
        season_message_id("Hiver"@) == Some("season-winter"@),
        season_message_id("Circumpolaire N"@) == Some("season-circumpolar-n"@),
        season_message_id("Circumpolaire S"@) == Some("season-circumpolar-s"@),
        season_message_id(other) is None,
{
    reveal_strlit("Toutes");
    reveal_strlit("Printemps");
    reveal_strlit("Été");
    reveal_strlit("Automne");
    reveal_strlit("Hiver");
    reveal_strlit("Circumpolaire N");
    reveal_strlit("Circumpolaire S");
    assert("Toutes"@.len() == 6);
    assert("Printemps"@.len() == 9);
    assert("Été"@.len() == 3);
    assert("Automne"@.len() == 7);
    assert("Hiver"@.len() == 5);
    assert("Circumpolaire N"@.len() == 15);
    assert("Circumpolaire S"@.len() == 15);
    assert("Circumpolaire N"@[14] != "Circumpolaire S"@[14]);
}

/// The season filter keys, in the order the season menu offers them.
pub open spec fn season_filter_key_seq() -> Seq<Seq<char>> {
    seq![
        "Toutes"@,
        "Printemps"@,
        "Été"@,
        "Automne"@,
        "Hiver"@,
        "Circumpolaire N"@,
        "Circumpolaire S"@,
    ]
}

/// The season filter keys, in menu order; each has a season message.
pub fn season_filter_keys() -> (r: Vec<&'static str>)
    ensures
        r@.len() == season_filter_key_seq().len(),
        forall|i: int| 0 <= i < r@.len() ==> #[trigger] r@[i]@ == season_filter_key_seq()[i],
        forall|i: int| 0 <= i < r@.len() ==> season_message_id(#[trigger] r@[i]@) is Some,
{
    let r = vec!["Toutes", "Printemps", "Été", "Automne", "Hiver", "Circumpolaire N", "Circumpolaire S"];
    proof {
        reveal_strlit("Toutes");
        reveal_strlit("Printemps");
        reveal_strlit("Été");
        reveal_strlit("Automne");
        reveal_strlit("Hiver");
        reveal_strlit("Circumpolaire N");
        reveal_strlit("Circumpolaire S");
        assert forall|i: int| 0 <= i < r@.len() implies season_message_id(#[trigger] r@[i]@) is Some by {
        }
    }
    r
}

/// The message id of a target kind.
pub open spec fn type_message_id(kind: TargetType) -> Seq<char> {
    match kind {
        TargetType::Constellation => "type-constellation"@,
        TargetType::Messier => "type-messier"@,
        TargetType::Nebula => "type-nebula"@,
        TargetType::Galaxy => "type-galaxy"@,
        TargetType::Cluster => "type-cluster"@,
    }
}

/// The message id of a target kind.
pub fn type_message(kind: TargetType) -> (r: &'static str)
    ensures
        r@ == type_message_id(kind),
{
    match kind {
        TargetType::Constellation => "type-constellation",
        TargetType::Messier => "type-messier",
        TargetType::Nebula => "type-nebula",
        TargetType::Galaxy => "type-galaxy",
        TargetType::Cluster => "type-cluster",
    }
}

/// A language without a bundle reads every message from the English bundle.
pub proof fn law_fallback_to_english(t: Translator, language: Seq<char>, id: Seq<char>)
    requires
        t.wf(),
        index_in(t.languages(), language) is None,
    ensures
        t.text(language, id) == t.text("en"@, id),
{
    if index_in(t.languages(), "en"@) is Some {
        let i = index_in(t.languages(), "en"@)->0;
        assert(t.languages()[i] == "en"@);
    }
}

/// The text of a message in the language whose bundle was just added (or
/// replaced), by `insert` or `add_language`, is the text that bundle holds
/// for it: for `add_language`, the text its FTL source gives under its
/// locale (`ftl_texts`).
pub proof fn law_insert_then_text(
    before: Translator,
    after: Translator,
    language: Seq<char>,
    texts: Map<Seq<char>, Seq<char>>,
    id: Seq<char>,
)
    requires
        before.wf(),
        after.wf(),
        match index_in(before.languages(), language) {
            Some(i) => {
                &&& after.languages() == before.languages()
                &&& after.texts() == before.texts().update(i, texts)
            },
            None => {
                &&& after.languages() == before.languages().push(language)
                &&& after.texts() == before.texts().push(texts)
            },
        },
    ensures
        after.text(language, id) == (if texts.dom().contains(id) {
            Some(texts[id])
        } else {
            None
        }),
{
    before.lemma_views();
    after.lemma_views();
    match index_in(before.languages(), language) {
        Some(i) => {
            assert(before.languages()[i] == language);
        },
        None => {
            let n = before.languages().len();
            assert(after.languages()[n as int] == language);
            let c = choose|k: int| 0 <= k < after.languages().len() && after.languages()[k] == language;
            assert(after.languages().no_duplicates());
            assert(c == n);
        },
    }
}

/// Adding or replacing the bundle of one language (by `insert` or
/// `add_language`) leaves the texts of every other language that has its own
/// bundle as they were.
pub proof fn law_insert_keeps_other_languages(
    before: Translator,
    after: Translator,
    language: Seq<char>,
    texts: Map<Seq<char>, Seq<char>>,
    other: Seq<char>,
    id: Seq<char>,
)
    requires
        before.wf(),
        after.wf(),
        other != language,
        index_in(before.languages(), other) is Some,
        match index_in(before.languages(), language) {
            Some(i) => {
                &&& after.languages() == before.languages()
                &&& after.texts() == before.texts().update(i, texts)
            },
            None => {
                &&& after.languages() == before.languages().push(language)
                &&& after.texts() == before.texts().push(texts)
            },
        },
    ensures
        after.text(other, id) == before.text(other, id),
{
    before.lemma_views();
    after.lemma_views();
    let j = index_in(before.languages(), other)->0;
    assert(before.languages()[j] == other);
    assert(after.languages()[j] == other);
    let c = choose|k: int| 0 <= k < after.languages().len() && after.languages()[k] == other;
    assert(after.languages().no_duplicates());
    assert(c == j);
    if index_in(before.languages(), language) is Some {
        let i = index_in(before.languages(), language)->0;
        assert(before.languages()[i] == language);
        assert(i != j);
    }
}

} // verus!
