//! Attributes of products and the values that an attribute may take.
use vstd::prelude::*;
use crate::translation::Translation;

verus! {

/// A value that an attribute may take: its code and, where it has them,
/// its translations.
#[derive(Debug, Clone)]
pub struct AttributeValue {
    /// Code of the value.
    pub code: String,
    /// Translations of the value.
    pub translations: Option<Vec<Translation>>,
}

/// A value given in several languages.
#[derive(Debug, Clone, PartialEq)]
pub struct TranslatedValue {
    /// Translated value
    pub translations: Vec<Translation>,
}

/// How an attribute is shown to clients: its interface element, and the
/// values that it may take.
#[derive(Debug, Clone)]
pub struct AttributeMetaField<U> {
    /// The interface element that shows the attribute.
    pub ui_element: U,
    /// Codes of the values, where there are any.
    pub values: Option<Vec<String>>,
    /// Translations of the values that have them, where there are any.
    pub translated_values: Option<Vec<Vec<Translation>>>,
}

/// The codes of the values, in order.
pub open spec fn value_codes(values: Seq<AttributeValue>) -> Seq<String> {
    values.map_values(|v: AttributeValue| v.code)
}

/// The translations of the values that have them, in order.
pub open spec fn value_translations(values: Seq<AttributeValue>) -> Seq<Vec<Translation>>
    decreases values.len(),
{
    if values.len() == 0 {
        Seq::empty()
    } else {
        let before = value_translations(values.drop_last());
        match values.last().translations {
            Some(t) => before.push(t),
            None => before,
        }
    }
}

/// A list, absent where it is empty.
pub open spec fn non_empty<T>(s: Seq<T>) -> Option<Seq<T>> {
    if s.len() == 0 {
        None
    } else {
        Some(s)
    }
}

/// A vector's elements, absent where the vector is.
pub open spec fn opt_view<T>(v: Option<Vec<T>>) -> Option<Seq<T>> {
    match v {
        Some(v) => Some(v@),
        None => None,
    }
}

/// The codes and the translations of an attribute's values, each absent
/// where there is none.
pub fn attribute_value_lists(attribute_values: Option<Vec<AttributeValue>>) -> (r: (
    Option<Vec<String>>,
    Option<Vec<Vec<Translation>>>,
))
    ensures
        opt_view(r.0) == (match attribute_values {
            Some(v) => non_empty(value_codes(v@)),
            None => None,
        }),
        opt_view(r.1) == (match attribute_values {
            Some(v) => non_empty(value_translations(v@)),
            None => None,
        }),
{
    match attribute_values {
        None => (None, None),
        Some(values) => {
            let ghost orig = values@;
            let mut values = values;
            let mut codes: Vec<String> = Vec::new();
            let mut translations: Vec<Vec<Translation>> = Vec::new();
            let mut k: usize = 0;
            let n: usize = values.len();
            while values.len() > 0
                invariant
                    orig.len() == n,
                    0 <= k <= orig.len(),
                    values@ == orig.skip(k as int),
                    values@.len() == orig.len() - k,
                    codes@ == value_codes(orig.take(k as int)),
                    translations@ == value_translations(orig.take(k as int)),
                decreases values@.len(),
            {
                let value: AttributeValue = values.remove(0);
                assert(value == orig[k as int]);
                assert(orig.take(k + 1).drop_last() =~= orig.take(k as int));
                assert(orig.skip(k as int).remove(0) =~= orig.skip(k + 1));
                codes.push(value.code);
                if let Some(t) = value.translations {
                    translations.push(t);
                }
                assert(codes@ =~= value_codes(orig.take(k + 1)));
                k = k + 1;
            }
            assert(orig.take(k as int) =~= orig);
            let codes: Option<Vec<String>> = if codes.len() == 0 {
                None
            } else {
                Some(codes)
            };
            let translations: Option<Vec<Vec<Translation>>> = if translations.len() == 0 {
                None
            } else {
                Some(translations)
            };
            (codes, translations)
        },
    }
}

/// How an attribute with the given meta field is shown: its interface
/// element, with the codes and translations of its values; nothing where
/// the attribute has no meta field.
pub fn get_attribute_meta_field<U>(
    attribute_values: Option<Vec<AttributeValue>>,
    meta: Option<AttributeMetaField<U>>,
) -> (r: Option<AttributeMetaField<U>>)
    ensures
        r is Some <==> meta is Some,
        r matches Some(f) ==> {
            &&& f.ui_element == meta->0.ui_element
            &&& opt_view(f.values) == (match attribute_values {
                Some(v) => non_empty(value_codes(v@)),
                None => None,
            })
            &&& opt_view(f.translated_values) == (match attribute_values {
                Some(v) => non_empty(value_translations(v@)),
                None => None,
            })
        },
{
    let (codes, translations) = attribute_value_lists(attribute_values);
    match meta {
        Some(m) => Some(
            AttributeMetaField {
                ui_element: m.ui_element,
                values: codes,
                translated_values: translations,
            },
        ),
        None => None,
    }
}

} // verus!
