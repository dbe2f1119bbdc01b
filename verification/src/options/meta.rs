//! Reading single meta items: each setting takes some of the three forms
//! (word, list, name and value) and refuses the others.

use vstd::prelude::*;
use vstd::string::StringExecFns;
use crate::error::{result_view, ConfigError, ConfigErrorView};
use crate::lexical::{guard, guarded, lemma_guarded_safe, lemma_guarded_same, opens_wide_byte};
use crate::options::{DefaultExpression, DefaultExpressionView};
use crate::synthesis::BuilderPattern;
use crate::syntax::{
    Attribute, AttributeView, Lit, LitView, MetaItem, MetaItemView, NestedMetaItem, NestedMetaItemView,
};

verus! {

/// Whether a name is the given key.
pub fn is_key(name: &String, key: &str) -> (b: bool)
    ensures
        b == (name@ == key@),
{
    let k = String::from_str(key);
    *name == k
}

/// The error for a setting written in a form that it does not take.
pub open spec fn wrong_form(item: MetaItemView) -> ConfigErrorView {
    ConfigErrorView::UnexpectedFormat(item.name())
}

/// The error for a setting whose literal is of a kind that it does not take.
pub open spec fn wrong_type(item: MetaItemView) -> ConfigErrorView {
    ConfigErrorView::UnexpectedType(item.name())
}

/// A marker is present as a bare word and takes no value.
pub open spec fn flag_of(item: MetaItemView) -> Result<(), ConfigErrorView> {
    match item {
        MetaItemView::Word(_) => Ok(()),
        MetaItemView::List(_, _) => Err(wrong_form(item)),
        MetaItemView::NameValue(_, _) => Err(wrong_type(item)),
    }
}

/// A switch is on as a bare word, or takes `true` or `false`, as a literal
/// or in a string.
pub open spec fn bool_of(item: MetaItemView) -> Result<bool, ConfigErrorView> {
    match item {
        MetaItemView::Word(_) => Ok(true),
        MetaItemView::List(_, _) => Err(wrong_form(item)),
        MetaItemView::NameValue(_, LitView::Bool(b)) => Ok(b),
        MetaItemView::NameValue(_, LitView::Str(s)) => if s == "true"@ {
            Ok(true)
        } else if s == "false"@ {
            Ok(false)
        } else {
            Err(ConfigErrorView::UnknownValue(s))
        },
        MetaItemView::NameValue(_, LitView::Other(_)) => Err(wrong_type(item)),
    }
}

/// A text setting takes a string literal.
pub open spec fn string_of(item: MetaItemView) -> Result<Seq<char>, ConfigErrorView> {
    match item {
        MetaItemView::Word(_) => Err(wrong_form(item)),
        MetaItemView::List(_, _) => Err(wrong_form(item)),
        MetaItemView::NameValue(_, LitView::Str(s)) => Ok(s),
        MetaItemView::NameValue(_, _) => Err(wrong_type(item)),
    }
}

/// A block of settings is a list.
pub open spec fn list_of(item: MetaItemView) -> Result<Seq<NestedMetaItemView>, ConfigErrorView> {
    match item {
        MetaItemView::Word(_) => Err(wrong_form(item)),
        MetaItemView::List(_, items) => Ok(items),
        MetaItemView::NameValue(_, _) => Err(wrong_type(item)),
    }
}

/// The pattern that a name stands for.
pub open spec fn pattern_named(s: Seq<char>) -> Result<BuilderPattern, ConfigErrorView> {
    if s == "owned"@ {
        Ok(BuilderPattern::Owned)
    } else if s == "mutable"@ {
        Ok(BuilderPattern::Mutable)
    } else if s == "immutable"@ {
        Ok(BuilderPattern::Immutable)
    } else {
        Err(ConfigErrorView::UnknownValue(s))
    }
}

/// A pattern is given by its name in a string.
pub open spec fn pattern_of(item: MetaItemView) -> Result<BuilderPattern, ConfigErrorView> {
    match string_of(item) {
        Ok(s) => pattern_named(s),
        Err(e) => Err(e),
    }
}

/// A default is the bare word, or an expression in a string.
pub open spec fn default_of(item: MetaItemView) -> Result<DefaultExpressionView, ConfigErrorView> {
    match item {
        MetaItemView::Word(_) => Ok(DefaultExpressionView::Trait),
        MetaItemView::List(_, _) => Err(wrong_form(item)),
        MetaItemView::NameValue(_, LitView::Str(s)) => Ok(DefaultExpressionView::Explicit(s)),
        MetaItemView::NameValue(_, _) => Err(wrong_type(item)),
    }
}

/// Whether a list entry is a bare word.
pub open spec fn is_word(entry: NestedMetaItemView) -> bool {
    entry matches NestedMetaItemView::MetaItem(MetaItemView::Word(_))
}

/// The word of a list entry that is one.
pub open spec fn word_of(entry: NestedMetaItemView) -> Seq<char> {
    entry->MetaItem_0->Word_0
}

/// A list of names is a list of bare words.
pub open spec fn idents_of(item: MetaItemView) -> Result<Seq<Seq<char>>, ConfigErrorView> {
    match list_of(item) {
        Ok(items) => if forall|i: int| 0 <= i < items.len() ==> is_word(#[trigger] items[i]) {
            Ok(Seq::new(items.len(), |i: int| word_of(items[i])))
        } else {
            Err(wrong_type(item))
        },
        Err(e) => Err(e),
    }
}

/// The error for a setting written in a form that it does not take.
pub fn unexpected_format(item: &MetaItem) -> (e: ConfigError)
    ensures
        e@ == wrong_form(item@),
{
    ConfigError::UnexpectedFormat(item.name().clone())
}

/// The error for a setting whose literal is of a kind that it does not take.
pub fn unexpected_type(item: &MetaItem) -> (e: ConfigError)
    ensures
        e@ == wrong_type(item@),
{
    ConfigError::UnexpectedType(item.name().clone())
}

/// Reads a marker.
pub fn read_flag(item: &MetaItem) -> (r: Result<(), ConfigError>)
    ensures
        result_view(r) == flag_of(item@),
{
    match item {
        MetaItem::Word(_) => Ok(()),
        MetaItem::List(_, _) => Err(unexpected_format(item)),
        MetaItem::NameValue(_, _) => Err(unexpected_type(item)),
    }
}

/// Reads a switch.
pub fn read_bool(item: &MetaItem) -> (r: Result<bool, ConfigError>)
    ensures
        result_view(r) == bool_of(item@),
{
    match item {
        MetaItem::Word(_) => Ok(true),
        MetaItem::List(_, _) => Err(unexpected_format(item)),
        MetaItem::NameValue(_, Lit::Bool(b)) => Ok(*b),
        MetaItem::NameValue(_, Lit::Str(s)) => if is_key(s, "true") {
            Ok(true)
        } else if is_key(s, "false") {
            Ok(false)
        } else {
            Err(ConfigError::UnknownValue(s.clone()))
        },
        MetaItem::NameValue(_, Lit::Other(_)) => Err(unexpected_type(item)),
    }
}

/// Reads a text setting.
pub fn read_string(item: &MetaItem) -> (r: Result<String, ConfigError>)
    ensures
        result_view(r) == string_of(item@),
{
    match item {
        MetaItem::Word(_) => Err(unexpected_format(item)),
        MetaItem::List(_, _) => Err(unexpected_format(item)),
        MetaItem::NameValue(_, Lit::Str(s)) => Ok(s.clone()),
        MetaItem::NameValue(_, _) => Err(unexpected_type(item)),
    }
}

/// Reads a block of settings.
pub fn read_list(item: &MetaItem) -> (r: Result<&Vec<NestedMetaItem>, ConfigError>)
    ensures
        result_view(r) == list_of(item@),
{
    match item {
        MetaItem::Word(_) => Err(unexpected_format(item)),
        MetaItem::List(_, items) => {
            assert(items.deep_view() =~= item@->List_1);
            Ok(items)
        },
        MetaItem::NameValue(_, _) => Err(unexpected_type(item)),
    }
}

/// Reads a pattern.
pub fn read_pattern(item: &MetaItem) -> (r: Result<BuilderPattern, ConfigError>)
    ensures
        result_view(r) == pattern_of(item@),
{
    match read_string(item) {
        Ok(s) => if is_key(&s, "owned") {
            Ok(BuilderPattern::Owned)
        } else if is_key(&s, "mutable") {
            Ok(BuilderPattern::Mutable)
        } else if is_key(&s, "immutable") {
            Ok(BuilderPattern::Immutable)
        } else {
            Err(ConfigError::UnknownValue(s))
        },
        Err(e) => Err(e),
    }
}

/// Reads a default.
pub fn read_default(item: &MetaItem) -> (r: Result<DefaultExpression, ConfigError>)
    ensures
        result_view(r) == default_of(item@),
{
    match item {
        MetaItem::Word(_) => DefaultExpression::from_word(),
        MetaItem::List(_, _) => Err(unexpected_format(item)),
        MetaItem::NameValue(_, Lit::Str(s)) => DefaultExpression::from_string(s.as_str()),
        MetaItem::NameValue(_, _) => Err(unexpected_type(item)),
    }
}

/// Reads a list of names.
pub fn read_idents(item: &MetaItem) -> (r: Result<Vec<String>, ConfigError>)
    ensures
        result_view(r) == idents_of(item@),
{
    let items = match read_list(item) {
        Ok(items) => items,
        Err(e) => {
            return Err(e);
        },
    };
    let ghost all = items.deep_view();
    let mut names: Vec<String> = Vec::new();
    let mut i: usize = 0;
    while i < items.len()
        invariant
            i <= items.len(),
            all == items.deep_view(),
            list_of(item@) == Ok::<Seq<NestedMetaItemView>, ConfigErrorView>(all),
            names.len() == i,
            forall|j: int| 0 <= j < i ==> is_word(#[trigger] all[j]),
            forall|j: int| 0 <= j < i ==> names@[j]@ == word_of(all[j]),
        decreases items.len() - i,
    {
        match &items[i] {
            NestedMetaItem::MetaItem(MetaItem::Word(n)) => {
                names.push(n.clone());
            },
            _ => {
                assert(!is_word(all[i as int]));
                return Err(unexpected_type(item));
            },
        }
        i += 1;
    }
    assert(names.deep_view() =~= Seq::new(all.len(), |i: int| word_of(all[i])));
    Ok(names)
}

/// Names what `syn::parse_path` decides: whether a text reads as a path.
pub uninterp spec fn parses_as_path(text: Seq<char>) -> bool;

/// Calls `syn::parse_path`, which accepts a text that is one path and
/// nothing more. The contract claims only that the outcome is the one that
/// `parses_as_path` names. The call panics on a byte literal that opens on
/// a character outside ASCII: texts with `b`, an apostrophe and such a
/// character in a row are left out.
#[verifier::external_body]
pub(crate) fn path_parses(text: &str) -> (ok: bool)
    requires
        !opens_wide_byte(text@),
    ensures
        ok == parses_as_path(text@),
{
    syn::parse_path(text).is_ok()
}

/// Whether a text is accepted as a path: whether what is handed to the
/// parser for it reads as a path. That is the text itself, unless `b`, an
/// apostrophe and a character outside ASCII stand in a row in it; then it is
/// the stand-in of [`guarded`].
pub open spec fn reads_as_path(text: Seq<char>) -> bool {
    parses_as_path(guarded(text))
}

/// A text without `b`, an apostrophe and a character outside ASCII in a
/// row is accepted as a path exactly where it reads as one.
pub proof fn lemma_reads_as_path(text: Seq<char>)
    requires
        !opens_wide_byte(text),
    ensures
        reads_as_path(text) == parses_as_path(text),
{
    lemma_guarded_same(text);
}

/// Whether a text is accepted as a path.
pub fn path_reads(text: &str) -> (ok: bool)
    ensures
        ok == reads_as_path(text@),
{
    let asked = guard(text);
    proof {
        lemma_guarded_safe(text@);
    }
    path_parses(asked.as_str())
}

/// A path setting keeps its text where the text is accepted as a path.
pub open spec fn path_checked(text: Seq<char>, parses: bool) -> Result<Seq<char>, ConfigErrorView> {
    if parses {
        Ok(text)
    } else {
        Err(ConfigErrorView::UnknownValue(text))
    }
}

/// A path is given in a string that is accepted as one.
pub open spec fn path_of(item: MetaItemView) -> Result<Seq<char>, ConfigErrorView> {
    match string_of(item) {
        Ok(s) => path_checked(s, reads_as_path(s)),
        Err(e) => Err(e),
    }
}

/// Keeps the text of a path setting, given whether it is accepted as a
/// path.
pub fn check_path(text: String, parses: bool) -> (r: Result<String, ConfigError>)
    ensures
        result_view(r) == path_checked(text@, parses),
{
    if parses {
        Ok(text)
    } else {
        Err(ConfigError::UnknownValue(text))
    }
}

/// Reads a path.
pub fn read_path(item: &MetaItem) -> (r: Result<String, ConfigError>)
    ensures
        result_view(r) == path_of(item@),
{
    match read_string(item) {
        Ok(s) => {
            let parses = path_reads(s.as_str());
            check_path(s, parses)
        },
        Err(e) => Err(e),
    }
}

/// The error for a key that the scope does not know.
pub fn unknown(item: &MetaItem) -> (e: ConfigError)
    ensures
        e@ == ConfigErrorView::UnknownField(item@.name()),
{
    ConfigError::UnknownField(item.name().clone())
}

/// A scope of the annotation: a record of settings that is filled from meta
/// items, one key at a time.
pub trait Settings: DeepView + Sized {
    /// The record after one item: the item's key chooses the setting, the
    /// item's form and value are read as that setting asks. A key that the
    /// scope does not know is an error.
    spec fn set(acc: Self::V, item: MetaItemView) -> Result<Self::V, ConfigErrorView>;

    /// Stores what one item says. On an error the record stays as it was.
    fn apply(&mut self, item: &MetaItem) -> (r: Result<(), ConfigError>)
        ensures
            match r {
                Ok(_) => Self::set(old(self).deep_view(), item@) == Ok::<Self::V, ConfigErrorView>(
                    final(self).deep_view(),
                ),
                Err(e) => Self::set(old(self).deep_view(), item@) == Err::<Self::V, ConfigErrorView>(
                    e@,
                ) && final(self).deep_view() == old(self).deep_view(),
            },
    ;
}

/// A record in the filling, with the keys that were given so far.
pub struct Filling<V> {
    pub record: V,
    pub seen: Seq<Seq<char>>,
}

/// The filling after one more meta item. A key is given once: a second
/// occurrence is an error, whatever it holds.
pub open spec fn step<S: Settings>(acc: Filling<S::V>, item: MetaItemView) -> Result<
    Filling<S::V>,
    ConfigErrorView,
> {
    if acc.seen.contains(item.name()) {
        Err(ConfigErrorView::DuplicateField(item.name()))
    } else {
        match S::set(acc.record, item) {
            Ok(record) => Ok(Filling { record, seen: acc.seen.push(item.name()) }),
            Err(e) => Err(e),
        }
    }
}

/// The filling after the entries of one list, taken from the first to the
/// last and stopping at the first error. Bare literals among the entries are
/// passed over.
pub open spec fn fill<S: Settings>(acc: Filling<S::V>, items: Seq<NestedMetaItemView>) -> Result<
    Filling<S::V>,
    ConfigErrorView,
>
    decreases items.len(),
{
    if items.len() == 0 {
        Ok(acc)
    } else {
        match fill::<S>(acc, items.drop_last()) {
            Ok(a) => match items.last() {
                NestedMetaItemView::MetaItem(m) => step::<S>(a, m),
                NestedMetaItemView::Literal(_) => Ok(a),
            },
            Err(e) => Err(e),
        }
    }
}

/// One more entry: the filling over `n + 1` entries is the filling over `n`,
/// followed by the step on the entry at `n`.
pub proof fn lemma_fill_next<S: Settings>(acc: Filling<S::V>, items: Seq<NestedMetaItemView>, n: int)
    requires
        0 <= n < items.len(),
    ensures
        fill::<S>(acc, items.take(n + 1)) == match fill::<S>(acc, items.take(n)) {
            Ok(a) => match items[n] {
                NestedMetaItemView::MetaItem(m) => step::<S>(a, m),
                NestedMetaItemView::Literal(_) => Ok(a),
            },
            Err(e) => Err(e),
        },
{
    assert(items.take(n + 1).drop_last() =~= items.take(n));
    assert(items.take(n + 1).last() == items[n]);
}

/// An error stays: once the filling over the first `n` entries has failed,
/// the filling over all of them fails in the same way.
pub proof fn lemma_fill_error<S: Settings>(acc: Filling<S::V>, items: Seq<NestedMetaItemView>, n: int)
    requires
        0 <= n <= items.len(),
        fill::<S>(acc, items.take(n)) is Err,
    ensures
        fill::<S>(acc, items) == fill::<S>(acc, items.take(n)),
    decreases items.len() - n,
{
    if n == items.len() {
        assert(items.take(n) =~= items);
    } else {
        lemma_fill_next::<S>(acc, items, n);
        lemma_fill_error::<S>(acc, items, n + 1);
    }
}

/// Whether a key is among those given so far.
pub fn seen_key(seen: &Vec<String>, name: &String) -> (b: bool)
    ensures
        b == seen.deep_view().contains(name@),
{
    let mut i: usize = 0;
    while i < seen.len()
        invariant
            i <= seen.len(),
            forall|j: int| 0 <= j < i ==> seen.deep_view()[j] != name@,
        decreases seen.len() - i,
    {
        if seen[i] == *name {
            assert(seen.deep_view()[i as int] == name@);
            return true;
        }
        i += 1;
    }
    false
}

/// Fills a record from the entries of one list.
pub fn read_items<S: Settings>(record: &mut S, seen: &mut Vec<String>, items: &Vec<NestedMetaItem>) -> (r:
    Result<(), ConfigError>)
    ensures
        match r {
            Ok(_) => fill::<S>(
                Filling { record: old(record).deep_view(), seen: old(seen).deep_view() },
                items.deep_view(),
            ) == Ok::<Filling<S::V>, ConfigErrorView>(
                Filling { record: final(record).deep_view(), seen: final(seen).deep_view() },
            ),
            Err(e) => fill::<S>(
                Filling { record: old(record).deep_view(), seen: old(seen).deep_view() },
                items.deep_view(),
            ) == Err::<Filling<S::V>, ConfigErrorView>(e@),
        },
{
    let ghost all = items.deep_view();
    let ghost start = Filling { record: record.deep_view(), seen: seen.deep_view() };
    let mut i: usize = 0;
    assert(all.take(0) =~= Seq::<NestedMetaItemView>::empty());
    while i < items.len()
        invariant
            i <= items.len(),
            all == items.deep_view(),
            start == (Filling { record: old(record).deep_view(), seen: old(seen).deep_view() }),
            fill::<S>(start, all.take(i as int)) == Ok::<Filling<S::V>, ConfigErrorView>(
                Filling { record: record.deep_view(), seen: seen.deep_view() },
            ),
        decreases items.len() - i,
    {
        proof {
            lemma_fill_next::<S>(start, all, i as int);
        }
        match &items[i] {
            NestedMetaItem::MetaItem(item) => {
                if seen_key(seen, item.name()) {
                    proof {
                        lemma_fill_error::<S>(start, all, i as int + 1);
                    }
                    return Err(ConfigError::DuplicateField(item.name().clone()));
                }
                match record.apply(item) {
                    Ok(_) => {
                        let ghost before = seen.deep_view();
                        seen.push(item.name().clone());
                        assert(seen.deep_view() =~= before.push(item@.name()));
                    },
                    Err(e) => {
                        proof {
                            lemma_fill_error::<S>(start, all, i as int + 1);
                        }
                        return Err(e);
                    },
                }
            },
            NestedMetaItem::Literal(_) => {},
        }
        i += 1;
    }
    assert(all.take(i as int) =~= all);
    Ok(())
}

/// The record that the entries of one list give, starting from `record`
/// with no key given yet.
pub open spec fn filled<S: Settings>(record: S::V, items: Seq<NestedMetaItemView>) -> Result<
    S::V,
    ConfigErrorView,
> {
    match fill::<S>(Filling { record, seen: Seq::empty() }, items) {
        Ok(f) => Ok(f.record),
        Err(e) => Err(e),
    }
}

/// Fills a record from the entries of one list, with no key given yet.
pub fn read_block<S: Settings>(record: S, items: &Vec<NestedMetaItem>) -> (r: Result<S, ConfigError>)
    ensures
        result_view(r) == filled::<S>(record.deep_view(), items.deep_view()),
{
    let mut current = record;
    let mut seen: Vec<String> = Vec::new();
    assert(seen.deep_view() =~= Seq::<Seq<char>>::empty());
    match read_items(&mut current, &mut seen, items) {
        Ok(_) => Ok(current),
        Err(e) => Err(e),
    }
}

/// The filling after one more attribute: the entries of `#[builder(..)]`
/// are read, every other attribute is passed over, and so is a `builder`
/// attribute that is no list.
pub open spec fn attr_step<S: Settings>(acc: Filling<S::V>, attr: AttributeView) -> Result<
    Filling<S::V>,
    ConfigErrorView,
> {
    match attr.value {
        MetaItemView::List(name, items) => if name == "builder"@ {
            fill::<S>(acc, items)
        } else {
            Ok(acc)
        },
        _ => Ok(acc),
    }
}

/// The filling after a run of attributes, taken from the first to the last
/// and stopping at the first error.
pub open spec fn fill_attrs<S: Settings>(acc: Filling<S::V>, attrs: Seq<AttributeView>) -> Result<
    Filling<S::V>,
    ConfigErrorView,
>
    decreases attrs.len(),
{
    if attrs.len() == 0 {
        Ok(acc)
    } else {
        match fill_attrs::<S>(acc, attrs.drop_last()) {
            Ok(a) => attr_step::<S>(a, attrs.last()),
            Err(e) => Err(e),
        }
    }
}

/// One more attribute: the filling over `n + 1` attributes is the filling
/// over `n`, followed by the step on the attribute at `n`.
pub proof fn lemma_fill_attrs_next<S: Settings>(acc: Filling<S::V>, attrs: Seq<AttributeView>, n: int)
    requires
        0 <= n < attrs.len(),
    ensures
        fill_attrs::<S>(acc, attrs.take(n + 1)) == match fill_attrs::<S>(acc, attrs.take(n)) {
            Ok(a) => attr_step::<S>(a, attrs[n]),
            Err(e) => Err(e),
        },
{
    assert(attrs.take(n + 1).drop_last() =~= attrs.take(n));
    assert(attrs.take(n + 1).last() == attrs[n]);
}

/// An error stays: once the filling over the first `n` attributes has
/// failed, the filling over all of them fails in the same way.
pub proof fn lemma_fill_attrs_error<S: Settings>(acc: Filling<S::V>, attrs: Seq<AttributeView>, n: int)
    requires
        0 <= n <= attrs.len(),
        fill_attrs::<S>(acc, attrs.take(n)) is Err,
    ensures
        fill_attrs::<S>(acc, attrs) == fill_attrs::<S>(acc, attrs.take(n)),
    decreases attrs.len() - n,
{
    if n == attrs.len() {
        assert(attrs.take(n) =~= attrs);
    } else {
        lemma_fill_attrs_next::<S>(acc, attrs, n);
        lemma_fill_attrs_error::<S>(acc, attrs, n + 1);
    }
}

/// The record that the `#[builder(..)]` attributes among `attrs` give,
/// starting from `record` with no key given yet.
pub open spec fn configured<S: Settings>(record: S::V, attrs: Seq<AttributeView>) -> Result<
    S::V,
    ConfigErrorView,
> {
    match fill_attrs::<S>(Filling { record, seen: Seq::empty() }, attrs) {
        Ok(f) => Ok(f.record),
        Err(e) => Err(e),
    }
}

/// Fills a record from the `#[builder(..)]` attributes among `attrs`.
pub fn read_attrs<S: Settings>(record: S, attrs: &Vec<Attribute>) -> (r: Result<S, ConfigError>)
    ensures
        result_view(r) == configured::<S>(record.deep_view(), attrs.deep_view()),
{
    let ghost all = attrs.deep_view();
    let ghost start = Filling { record: record.deep_view(), seen: Seq::<Seq<char>>::empty() };
    let mut current = record;
    let mut seen: Vec<String> = Vec::new();
    assert(seen.deep_view() =~= Seq::<Seq<char>>::empty());
    assert(all.take(0) =~= Seq::<AttributeView>::empty());
    let mut i: usize = 0;
    while i < attrs.len()
        invariant
            i <= attrs.len(),
            all == attrs.deep_view(),
            start == (Filling { record: record.deep_view(), seen: Seq::<Seq<char>>::empty() }),
            fill_attrs::<S>(start, all.take(i as int)) == Ok::<Filling<S::V>, ConfigErrorView>(
                Filling { record: current.deep_view(), seen: seen.deep_view() },
            ),
        decreases attrs.len() - i,
    {
        proof {
            lemma_fill_attrs_next::<S>(start, all, i as int);
        }
        match &attrs[i].value {
            MetaItem::List(name, items) => {
                if is_key(name, "builder") {
                    assert(items.deep_view() =~= attrs@[i as int]@.value->List_1);
                    match read_items(&mut current, &mut seen, items) {
                        Ok(_) => {},
                        Err(e) => {
                            proof {
                                lemma_fill_attrs_error::<S>(start, all, i as int + 1);
                            }
                            return Err(e);
                        },
                    }
                }
            },
            _ => {},
        }
        i += 1;
    }
    assert(all.take(i as int) =~= all);
    Ok(current)
}

/// What no key touches stays: a projection of the record that every single
/// setting leaves alone is the same after a whole list.
pub proof fn lemma_fill_keeps<S: Settings, K>(
    acc: Filling<S::V>,
    items: Seq<NestedMetaItemView>,
    part: spec_fn(S::V) -> K,
)
    requires
        forall|a: S::V, item: MetaItemView| #[trigger]
            S::set(a, item) matches Ok(r) ==> part(r) == part(a),
    ensures
        fill::<S>(acc, items) matches Ok(f) ==> part(f.record) == part(acc.record),
    decreases items.len(),
{
    if items.len() > 0 {
        lemma_fill_keeps::<S, K>(acc, items.drop_last(), part);
        if let Ok(a) = fill::<S>(acc, items.drop_last()) {
            if let NestedMetaItemView::MetaItem(m) = items.last() {
                assert(S::set(a.record, m) matches Ok(r) ==> part(r) == part(a.record));
            }
        }
    }
}

/// What no key touches stays, over a run of attributes.
pub proof fn lemma_fill_attrs_keeps<S: Settings, K>(
    acc: Filling<S::V>,
    attrs: Seq<AttributeView>,
    part: spec_fn(S::V) -> K,
)
    requires
        forall|a: S::V, item: MetaItemView| #[trigger]
            S::set(a, item) matches Ok(r) ==> part(r) == part(a),
    ensures
        fill_attrs::<S>(acc, attrs) matches Ok(f) ==> part(f.record) == part(acc.record),
    decreases attrs.len(),
{
    if attrs.len() > 0 {
        lemma_fill_attrs_keeps::<S, K>(acc, attrs.drop_last(), part);
        if let Ok(a) = fill_attrs::<S>(acc, attrs.drop_last()) {
            if let MetaItemView::List(_, items) = attrs.last().value {
                lemma_fill_keeps::<S, K>(a, items, part);
            }
        }
    }
}

/// What every setting keeps holds in the end: a condition on the record
/// that holds at the start and that no single setting breaks holds after a
/// whole list.
pub proof fn lemma_fill_holds<S: Settings>(
    acc: Filling<S::V>,
    items: Seq<NestedMetaItemView>,
    holds: spec_fn(S::V) -> bool,
)
    requires
        holds(acc.record),
        forall|a: S::V, item: MetaItemView|
            holds(a) && (#[trigger] S::set(a, item)) is Ok ==> holds(S::set(a, item)->Ok_0),
    ensures
        fill::<S>(acc, items) matches Ok(f) ==> holds(f.record),
    decreases items.len(),
{
    if items.len() > 0 {
        lemma_fill_holds::<S>(acc, items.drop_last(), holds);
        if let Ok(a) = fill::<S>(acc, items.drop_last()) {
            if let NestedMetaItemView::MetaItem(m) = items.last() {
                assert(holds(a.record) && S::set(a.record, m) is Ok ==> holds(S::set(a.record, m)->Ok_0));
            }
        }
    }
}

/// What every setting keeps holds in the end, over a run of attributes.
pub proof fn lemma_fill_attrs_holds<S: Settings>(
    acc: Filling<S::V>,
    attrs: Seq<AttributeView>,
    holds: spec_fn(S::V) -> bool,
)
    requires
        holds(acc.record),
        forall|a: S::V, item: MetaItemView|
            holds(a) && (#[trigger] S::set(a, item)) is Ok ==> holds(S::set(a, item)->Ok_0),
    ensures
        fill_attrs::<S>(acc, attrs) matches Ok(f) ==> holds(f.record),
    decreases attrs.len(),
{
    if attrs.len() > 0 {
        lemma_fill_attrs_holds::<S>(acc, attrs.drop_last(), holds);
        if let Ok(a) = fill_attrs::<S>(acc, attrs.drop_last()) {
            if let MetaItemView::List(_, items) = attrs.last().value {
                lemma_fill_holds::<S>(a, items, holds);
            }
        }
    }
}

} // verus!
