//! A text with formatting, carried on the wire under the tag
//! `formattedText`.

use vstd::prelude::*;

use crate::errors::DecodeErrView;
use crate::errors::DecodeError;
use crate::errors::EncodeError;
use crate::errors::res_view;
use crate::json::JsonValue;
use crate::json::JsonView;
use crate::json::get_str;
use crate::json::jlookup;
use crate::json::json_view_fields;
use crate::json::lemma_json_view_fields;
use crate::json::spec_get_str;
use crate::json::spec_tag;
use crate::json::str_eq;
use crate::json::str_to_string;
use crate::json::tag_of;
use crate::robject::RObject;
use crate::wire::json_of_text;
use crate::wire::parse_json;
use crate::wire::render_json;
use crate::wire::text_of_json;

verus! {

/// A text with formatting attached.
#[derive(Debug, PartialEq)]
pub struct FormattedText {
    /// The text.
    text: String,
}

/// Mathematical model of a [`FormattedText`].
pub struct FormattedTextView {
    pub text: Seq<char>,
}

impl DeepView for FormattedText {
    type V = FormattedTextView;

    closed spec fn deep_view(&self) -> FormattedTextView {
        FormattedTextView { text: self.text@ }
    }
}

impl Clone for FormattedText {
    /// The copy carries the same model.
    fn clone(&self) -> (r: Self)
        ensures
            r.deep_view() == self.deep_view(),
    {
        FormattedText { text: self.text.clone() }
    }
}

impl Default for FormattedText {
    /// An empty text.
    fn default() -> (r: Self)
        ensures
            r.deep_view() == FormattedText::spec_default(),
    {
        FormattedText { text: String::new() }
    }
}

impl RObject for FormattedText {
    open spec fn wire_tag(&self) -> Seq<char> {
        "formattedText"@
    }

    fn td_name(&self) -> (r: &'static str) {
        "formattedText"
    }
}

impl FormattedText {
    /// The model of a freshly built, empty record.
    pub open spec fn spec_default() -> FormattedTextView {
        FormattedTextView { text: Seq::empty() }
    }

    /// The wire form of a record model: the discriminator, then every field.
    pub open spec fn spec_to_jv(m: FormattedTextView) -> JsonView {
        JsonView::Obj(
            seq![
                ("@type"@, JsonView::Str("formattedText"@)),
                ("text"@, JsonView::Str(m.text)),
            ],
        )
    }

    /// What decoding a tree into this record yields.
    pub open spec fn spec_from_jv(j: JsonView) -> Result<FormattedTextView, DecodeErrView> {
        if spec_tag(j) != Some("formattedText"@) {
            Err(DecodeErrView::UnknownOrMissingTag)
        } else {
            match spec_get_str(j->Obj_0, "text"@) {
                Ok(s) => Ok(FormattedTextView { text: s }),
                Err(e) => Err(e),
            }
        }
    }

    /// Builds a record holding `text`.
    pub fn new(text: String) -> (r: Self)
        ensures
            r.deep_view() == (FormattedTextView { text: text@ }),
    {
        FormattedText { text }
    }

    /// The text.
    pub fn text(&self) -> (r: &String)
        ensures
            r@ == self.deep_view().text,
    {
        &self.text
    }

    /// Encodes this record as a tree.
    pub fn to_value(&self) -> (r: Result<JsonValue, EncodeError>)
        ensures
            r matches Ok(v) && v.deep_view() == Self::spec_to_jv(self.deep_view()),
    {
        let mut fields: Vec<(String, JsonValue)> = Vec::new();
        fields.push((str_to_string("@type"), JsonValue::Str(str_to_string("formattedText"))));
        fields.push((str_to_string("text"), JsonValue::Str(self.text.clone())));
        proof {
            lemma_json_view_fields(fields@);
            assert(fields@.len() == 2);
            assert(fields@[0].0@ == "@type"@);
            assert(fields@[1].0@ == "text"@);
            assert(json_view_fields(fields@) =~= Self::spec_to_jv(self.deep_view())->Obj_0);
        }
        Ok(JsonValue::Obj(fields))
    }

    /// Prints this record as JSON text.
    pub fn to_json(&self) -> (r: Result<String, EncodeError>)
        ensures
            r matches Ok(s) && s@ == text_of_json(Self::spec_to_jv(self.deep_view())),
    {
        match self.to_value() {
            Ok(v) => Ok(render_json(&v)),
            Err(e) => Err(e),
        }
    }

    /// Decodes a tree into this record; all-or-nothing.
    pub fn from_value(v: &JsonValue) -> (r: Result<Self, DecodeError>)
        ensures
            res_view(r) == Self::spec_from_jv(v.deep_view()),
    {
        let fields = match v {
            JsonValue::Obj(fields) => fields,
            _ => {
                return Err(DecodeError::UnknownOrMissingTag);
            },
        };
        let tag_ok = match tag_of(fields) {
            Some(t) => str_eq(t, "formattedText"),
            None => false,
        };
        if !tag_ok {
            return Err(DecodeError::UnknownOrMissingTag);
        }
        let text = match get_str(fields, "text") {
            Ok(s) => s,
            Err(e) => {
                return Err(e);
            },
        };
        Ok(FormattedText { text })
    }

    /// Decodes JSON text into this record.
    pub fn from_json(s: &str) -> (r: Result<Self, DecodeError>)
        ensures
            match json_of_text(s@) {
                Some(j) => res_view(r) == Self::spec_from_jv(j),
                None => res_view(r) == Err::<FormattedTextView, _>(DecodeErrView::InvalidJson),
            },
    {
        match parse_json(s) {
            Some(v) => Self::from_value(&v),
            None => Err(DecodeError::InvalidJson),
        }
    }

    /// Decoding the wire form of a record yields that record back.
    pub proof fn lemma_round_trip(m: FormattedTextView)
        ensures
            Self::spec_from_jv(Self::spec_to_jv(m)) == Ok::<_, DecodeErrView>(m),
    {
        reveal_strlit("@type");
        reveal_strlit("formattedText");
        reveal_strlit("text");
        let fs = Self::spec_to_jv(m)->Obj_0;
        assert(jlookup(fs, "@type"@) == Some(JsonView::Str("formattedText"@)));
        assert(("@type"@).len() == 5);
        assert(("text"@).len() == 4);
        crate::json::lemma_jlookup_step(fs, "text"@);
        assert(fs.drop_first() =~= seq![("text"@, JsonView::Str(m.text))]);
        assert(jlookup(fs, "text"@) == Some(JsonView::Str(m.text)));
    }

    /// The wire form's discriminator is the record's declared tag.
    pub proof fn lemma_tag_fidelity(m: FormattedTextView)
        ensures
            spec_tag(Self::spec_to_jv(m)) == Some("formattedText"@),
    {
        let fs = Self::spec_to_jv(m)->Obj_0;
        assert(jlookup(fs, "@type"@) == Some(JsonView::Str("formattedText"@)));
    }
}

} // verus!
