use std::marker::PhantomData;

use vstd::prelude::*;

use crate::config_type::ConfigType;
use crate::error::{ConfigError, ConfigErrorView, error_text};
use crate::helpers::lemma_string_vec_deep_view;
use crate::strings::{is_none_keyword, is_none_word, owned, split_commas, split_on, str_views, trim, trim_str};
use crate::types::list::{list_text, list_to_string};
use crate::validator::{ConfigValidator, NoValidation};

verus! {

/// Wrap any [`ConfigType`] into an array (vector) version.
///
/// `ArrayOf<U32>` stores `Option<Vec<Option<u32>>>` and returns `Vec<u32>`.
pub struct ArrayOf<T, V = NoValidation>(PhantomData<(T, V)>);

/// The message for an array item that does not parse.
pub open spec fn item_error_message(trimmed: Seq<char>, message: Seq<char>) -> Seq<char> {
    "invalid '"@ + trimmed + "': "@ + message
}

impl<T: ConfigType, V> ArrayOf<T, V> {
    /// The default an item at position `i` is read against: the default's item there, or
    /// the type's fallback default past its end.
    pub open spec fn default_at(
        default: Seq<<T::Default as DeepView>::V>,
        i: int,
    ) -> <T::Default as DeepView>::V {
        if 0 <= i < default.len() {
            default[i]
        } else {
            T::spec_fallback_default()
        }
    }

    /// The stored items that the comma-separated `pieces` parse to, each trimmed and read
    /// against the fallback default; the first piece that does not parse gives the error.
    pub open spec fn parse_items(pieces: Seq<Seq<char>>) -> Result<
        Seq<<T::Stored as DeepView>::V>,
        Seq<char>,
    >
        decreases pieces.len(),
    {
        if pieces.len() == 0 {
            Ok(Seq::empty())
        } else {
            match Self::parse_items(pieces.drop_last()) {
                Err(m) => Err(m),
                Ok(prev) => match T::spec_parse(trim(pieces.last()), T::spec_fallback_default()) {
                    Ok(v) => Ok(prev.push(v)),
                    Err(m) => Err(item_error_message(trim(pieces.last()), m)),
                },
            }
        }
    }

    /// Once a prefix of the pieces fails to parse, the whole list fails with the same error.
    pub proof fn lemma_parse_items_error(pieces: Seq<Seq<char>>, j: int)
        requires
            0 <= j <= pieces.len(),
            Self::parse_items(pieces.take(j)) is Err,
        ensures
            Self::parse_items(pieces) == Self::parse_items(pieces.take(j)),
        decreases pieces.len() - j,
    {
        if j < pieces.len() {
            let p = pieces.take(j + 1);
            assert(p.drop_last() =~= pieces.take(j));
            Self::lemma_parse_items_error(pieces, j + 1);
        } else {
            assert(pieces.take(j) =~= pieces);
        }
    }

    /// When every piece parses there is one stored item per piece: what the element type
    /// parses the trimmed piece to against its fallback default.
    pub proof fn lemma_parse_items_ok(pieces: Seq<Seq<char>>)
        ensures
            Self::parse_items(pieces) matches Ok(items) ==> {
                &&& items.len() == pieces.len()
                &&& forall|i: int|
                    #![trigger items[i]]
                    0 <= i < pieces.len() ==> T::spec_parse(
                        trim(pieces[i]),
                        T::spec_fallback_default(),
                    ) == Ok::<<T::Stored as DeepView>::V, Seq<char>>(items[i])
            },
        decreases pieces.len(),
    {
        if pieces.len() > 0 {
            let prev = pieces.drop_last();
            Self::lemma_parse_items_ok(prev);
            if let Ok(items) = Self::parse_items(pieces) {
                let before = Self::parse_items(prev)->Ok_0;
                assert(items == before.push(items.last()));
                assert forall|i: int|
                    #![trigger items[i]]
                    0 <= i < pieces.len() implies T::spec_parse(
                        trim(pieces[i]),
                        T::spec_fallback_default(),
                    ) == Ok::<<T::Stored as DeepView>::V, Seq<char>>(items[i]) by {
                    if i < pieces.len() - 1 {
                        assert(pieces[i] == prev[i]);
                        assert(items[i] == before[i]);
                    }
                }
            }
        }
    }

    /// The getter's items for stored items `v`.
    pub open spec fn stored_values(
        v: Seq<<T::Stored as DeepView>::V>,
        default: Seq<<T::Default as DeepView>::V>,
    ) -> Seq<<T::Value as DeepView>::V> {
        Seq::new(v.len(), |i: int| T::spec_get(v[i], Self::default_at(default, i)))
    }

    /// The getter's items when nothing is stored.
    pub open spec fn default_values(default: Seq<<T::Default as DeepView>::V>) -> Seq<
        <T::Value as DeepView>::V,
    > {
        Seq::new(
            default.len(),
            |i: int| T::spec_get(T::spec_stored_from_default(default[i]), default[i]),
        )
    }

    /// The display texts of stored items `v`.
    pub open spec fn stored_texts(
        v: Seq<<T::Stored as DeepView>::V>,
        default: Seq<<T::Default as DeepView>::V>,
    ) -> Seq<Seq<char>> {
        Seq::new(v.len(), |i: int| T::spec_format(v[i], Self::default_at(default, i)))
    }

    /// The display texts of the default's items.
    pub open spec fn default_texts(default: Seq<<T::Default as DeepView>::V>) -> Seq<Seq<char>> {
        Seq::new(
            default.len(),
            |i: int| T::spec_format(T::spec_stored_from_default(default[i]), default[i]),
        )
    }
}

impl<T: ConfigType, V: ConfigValidator<Option<Vec<T::Stored>>>> ConfigType for ArrayOf<T, V> {
    type Stored = Option<Vec<T::Stored>>;

    type Default = Vec<T::Default>;

    type Value = Vec<T::Value>;

    open spec fn spec_get(
        stored: Option<Seq<<T::Stored as DeepView>::V>>,
        default: Seq<<T::Default as DeepView>::V>,
    ) -> Seq<<T::Value as DeepView>::V> {
        match stored {
            Some(v) => Self::stored_values(v, default),
            None => Self::default_values(default),
        }
    }

    open spec fn spec_parse(input: Seq<char>, default: Seq<<T::Default as DeepView>::V>) -> Result<
        Option<Seq<<T::Stored as DeepView>::V>>,
        Seq<char>,
    > {
        if is_none_word(input) {
            Ok(None)
        } else {
            match Self::parse_items(split_on(input, ',')) {
                Ok(items) => Ok(Some(items)),
                Err(m) => Err(m),
            }
        }
    }

    open spec fn spec_format(
        stored: Option<Seq<<T::Stored as DeepView>::V>>,
        default: Seq<<T::Default as DeepView>::V>,
    ) -> Seq<char> {
        match stored {
            Some(v) => list_text(Self::stored_texts(v, default)),
            None => list_text(Self::default_texts(default)),
        }
    }

    open spec fn spec_stored_from_default(default: Seq<<T::Default as DeepView>::V>) -> Option<
        Seq<<T::Stored as DeepView>::V>,
    > {
        if default.len() == 0 {
            None
        } else {
            Some(Seq::new(default.len(), |i: int| T::spec_stored_from_default(default[i])))
        }
    }

    open spec fn spec_reset_value(default: Seq<<T::Default as DeepView>::V>) -> Option<
        Seq<<T::Stored as DeepView>::V>,
    > {
        None
    }

    open spec fn spec_validate(stored: Option<Seq<<T::Stored as DeepView>::V>>) -> Option<
        ConfigErrorView,
    > {
        V::spec_check(stored)
    }

    open spec fn spec_fallback_default() -> Seq<<T::Default as DeepView>::V> {
        Seq::empty()
    }

    proof fn lemma_reset_shows_default(default: Seq<<T::Default as DeepView>::V>) {
        if default.len() > 0 {
            let sv = Seq::new(default.len(), |i: int| T::spec_stored_from_default(default[i]));
            assert(Self::stored_values(sv, default) =~= Self::default_values(default));
            assert(Self::stored_texts(sv, default) =~= Self::default_texts(default));
        }
    }

    fn get(stored: &Option<Vec<T::Stored>>, default: &Vec<T::Default>) -> (r: Vec<T::Value>) {
        let mut out: Vec<T::Value> = Vec::new();
        match stored {
            Some(v) => {
                let mut i: usize = 0;
                while i < v.len()
                    invariant
                        i <= v@.len(),
                        out@.len() == i,
                        forall|k: int|
                            0 <= k < i ==> #[trigger] out@[k].deep_view() == T::spec_get(
                                v@[k].deep_view(),
                                Self::default_at(default.deep_view(), k),
                            ),
                    decreases v@.len() - i,
                {
                    let value = if i < default.len() {
                        T::get(&v[i], &default[i])
                    } else {
                        let fallback = T::fallback_default();
                        T::get(&v[i], &fallback)
                    };
                    out.push(value);
                    i = i + 1;
                }
                proof {
                    assert(out.deep_view() =~= Self::stored_values(
                        v.deep_view(),
                        default.deep_view(),
                    ));
                }
            },
            None => {
                let mut i: usize = 0;
                while i < default.len()
                    invariant
                        i <= default@.len(),
                        out@.len() == i,
                        forall|k: int|
                            0 <= k < i ==> #[trigger] out@[k].deep_view() == T::spec_get(
                                T::spec_stored_from_default(default@[k].deep_view()),
                                default@[k].deep_view(),
                            ),
                    decreases default@.len() - i,
                {
                    let s = T::stored_from_default(&default[i]);
                    out.push(T::get(&s, &default[i]));
                    i = i + 1;
                }
                proof {
                    assert(out.deep_view() =~= Self::default_values(default.deep_view()));
                }
            },
        }
        out
    }

    fn parse(input: &str, default: &Vec<T::Default>) -> (r: Result<
        Option<Vec<T::Stored>>,
        ConfigError,
    >) {
        if is_none_keyword(input) {
            return Ok(None);
        }
        let pieces = split_commas(input);
        let ghost views = str_views(pieces@);
        let mut items: Vec<T::Stored> = Vec::new();
        let mut i: usize = 0;
        proof {
            assert(views.take(0) =~= Seq::<Seq<char>>::empty());
            assert(items.deep_view() =~= Seq::<<T::Stored as DeepView>::V>::empty());
        }
        while i < pieces.len()
            invariant
                views == str_views(pieces@),
                views == split_on(input@, ','),
                !is_none_word(input@),
                i <= pieces@.len(),
                Self::parse_items(views.take(i as int)) == Ok::<
                    Seq<<T::Stored as DeepView>::V>,
                    Seq<char>,
                >(items.deep_view()),
            decreases pieces@.len() - i,
        {
            let trimmed = trim_str(pieces[i]);
            let fallback = T::fallback_default();
            let ghost next = views.take(i as int + 1);
            proof {
                assert(next.drop_last() =~= views.take(i as int));
                assert(next.last() == pieces@[i as int]@);
            }
            match T::parse(trimmed, &fallback) {
                Ok(s) => {
                    let ghost before = items.deep_view();
                    items.push(s);
                    proof {
                        assert(items.deep_view() =~= before.push(s.deep_view()));
                    }
                },
                Err(e) => {
                    proof {
                        let sp = T::spec_parse(trimmed@, fallback.deep_view());
                        assert(sp is Err);
                        assert(e@ == ConfigErrorView::InvalidValue(sp->Err_0));
                        assert(error_text(e@) == sp->Err_0);
                        assert(Self::parse_items(next) == Err::<Seq<<T::Stored as DeepView>::V>, Seq<char>>(
                            item_error_message(trim(next.last()), sp->Err_0),
                        ));
                    }
                    let mut msg = owned("invalid '");
                    msg.append(trimmed);
                    msg.append("': ");
                    let text = e.message();
                    msg.append(text.as_str());
                    proof {
                        Self::lemma_parse_items_error(views, i as int + 1);
                        assert(views.take(pieces@.len() as int) =~= views);
                        assert(msg@ == item_error_message(trim(next.last()), error_text(e@)));
                    }
                    return Err(ConfigError::InvalidValue(msg));
                },
            }
            i = i + 1;
        }
        proof {
            assert(views.take(pieces@.len() as int) =~= views);
        }
        Ok(Some(items))
    }

    fn format(stored: &Option<Vec<T::Stored>>, default: &Vec<T::Default>) -> (r: String) {
        let mut texts: Vec<String> = Vec::new();
        match stored {
            Some(v) => {
                assert(stored.deep_view() == Some(v.deep_view()));
                let mut i: usize = 0;
                while i < v.len()
                    invariant
                        i <= v@.len(),
                        texts@.len() == i,
                        forall|k: int|
                            0 <= k < i ==> #[trigger] texts@[k]@ == T::spec_format(
                                v@[k].deep_view(),
                                Self::default_at(default.deep_view(), k),
                            ),
                    decreases v@.len() - i,
                {
                    let text = if i < default.len() {
                        T::format(&v[i], &default[i])
                    } else {
                        let fallback = T::fallback_default();
                        T::format(&v[i], &fallback)
                    };
                    texts.push(text);
                    i = i + 1;
                }
                proof {
                    lemma_string_vec_deep_view(texts);
                    assert(texts.deep_view() =~= Self::stored_texts(
                        v.deep_view(),
                        default.deep_view(),
                    ));
                }
            },
            None => {
                let mut i: usize = 0;
                while i < default.len()
                    invariant
                        i <= default@.len(),
                        texts@.len() == i,
                        forall|k: int|
                            0 <= k < i ==> #[trigger] texts@[k]@ == T::spec_format(
                                T::spec_stored_from_default(default@[k].deep_view()),
                                default@[k].deep_view(),
                            ),
                    decreases default@.len() - i,
                {
                    let s = T::stored_from_default(&default[i]);
                    texts.push(T::format(&s, &default[i]));
                    i = i + 1;
                }
                proof {
                    lemma_string_vec_deep_view(texts);
                    assert(texts.deep_view() =~= Self::default_texts(default.deep_view()));
                }
            },
        }
        list_to_string(&texts)
    }

    fn stored_from_default(default: &Vec<T::Default>) -> (r: Option<Vec<T::Stored>>) {
        if default.len() == 0 {
            assert(default.deep_view().len() == 0);
            return None;
        }
        let mut out: Vec<T::Stored> = Vec::new();
        let mut i: usize = 0;
        while i < default.len()
            invariant
                i <= default@.len(),
                out@.len() == i,
                forall|k: int|
                    0 <= k < i ==> #[trigger] out@[k].deep_view() == T::spec_stored_from_default(
                        default@[k].deep_view(),
                    ),
            decreases default@.len() - i,
        {
            out.push(T::stored_from_default(&default[i]));
            i = i + 1;
        }
        proof {
            assert(out.deep_view() =~= Seq::new(
                default.deep_view().len(),
                |k: int| T::spec_stored_from_default(default.deep_view()[k]),
            ));
            assert(Some(out).deep_view() == Some(out.deep_view()));
        }
        Some(out)
    }

    fn validate(stored: &Option<Vec<T::Stored>>) -> (r: Result<(), ConfigError>) {
        V::validate(stored)
    }

    fn reset_value(default: &Vec<T::Default>) -> (r: Option<Vec<T::Stored>>) {
        None
    }

    fn fallback_default() -> (r: Vec<T::Default>) {
        let r: Vec<T::Default> = Vec::new();
        assert(r.deep_view() =~= Seq::<<T::Default as DeepView>::V>::empty());
        r
    }
}

/// Laws of `ArrayOf` fields: `none` clears the field, which then reads as the default's
/// items; a list whose items do not all parse is refused with the first bad item's error;
/// and a list whose items all parse is stored one item per comma-separated piece, each as
/// the element type parses the trimmed piece against its fallback default, and reads back
/// item by item as the element type reads it against the default's item at its position
/// (against the fallback default, which it was parsed with, when the default is empty).
pub proof fn lemma_array_reads_back<T: ConfigType, V: ConfigValidator<Option<Vec<T::Stored>>>>(
    input: Seq<char>,
    default: Seq<<T::Default as DeepView>::V>,
)
    ensures
        is_none_word(input) ==> {
            &&& <ArrayOf<T, V> as ConfigType>::spec_parse(input, default) == Ok::<
                Option<Seq<<T::Stored as DeepView>::V>>,
                Seq<char>,
            >(None)
            &&& <ArrayOf<T, V> as ConfigType>::spec_get(None, default) == ArrayOf::<
                T,
                V,
            >::default_values(default)
        },
        !is_none_word(input) ==> match ArrayOf::<T, V>::parse_items(split_on(input, ',')) {
            Err(m) => <ArrayOf<T, V> as ConfigType>::spec_parse(input, default) == Err::<
                Option<Seq<<T::Stored as DeepView>::V>>,
                Seq<char>,
            >(m),
            Ok(items) => {
                let pieces = split_on(input, ',');
                let read = <ArrayOf<T, V> as ConfigType>::spec_get(Some(items), default);
                &&& <ArrayOf<T, V> as ConfigType>::spec_parse(input, default) == Ok::<
                    Option<Seq<<T::Stored as DeepView>::V>>,
                    Seq<char>,
                >(Some(items))
                &&& items.len() == pieces.len()
                &&& read.len() == items.len()
                &&& forall|i: int|
                    #![trigger items[i]]
                    0 <= i < items.len() ==> {
                        &&& T::spec_parse(trim(pieces[i]), T::spec_fallback_default()) == Ok::<
                            <T::Stored as DeepView>::V,
                            Seq<char>,
                        >(items[i])
                        &&& read[i] == T::spec_get(items[i], ArrayOf::<T, V>::default_at(default, i))
                        &&& default.len() == 0 ==> read[i] == T::spec_get(
                            items[i],
                            T::spec_fallback_default(),
                        )
                    }
            },
        },
{
    ArrayOf::<T, V>::lemma_parse_items_ok(split_on(input, ','));
}

} // verus!
