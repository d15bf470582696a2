//! One block of an instant-view page: a union of block kinds, each carrying
//! formatted text. The active variant's tag travels under the discriminator
//! key `@type`.

use vstd::prelude::*;

use crate::errors::DecodeErrView;
use crate::errors::DecodeError;
use crate::errors::EncodeError;
use crate::errors::res_view;
use crate::formatted_text::FormattedText;
use crate::formatted_text::FormattedTextView;
use crate::json::JsonValue;
use crate::json::JsonView;
use crate::json::get_obj;
use crate::json::jlookup;
use crate::json::json_view_fields;
use crate::json::lemma_jlookup_step;
use crate::json::lemma_json_view_fields;
use crate::json::spec_get_obj;
use crate::json::spec_tag;
use crate::json::str_eq;
use crate::json::str_to_string;
use crate::json::tag_of;
use crate::robject::RObject;
use crate::wire::json_of_text;
use crate::wire::parse_json;
use crate::wire::render_json;
use crate::wire::text_of_json;

verus! {

/// One block of an instant-view page.
#[derive(Debug, PartialEq)]
pub enum PageBlock {
    /// The title of the page.
    Title {
        /// The title text.
        title: FormattedText,
    },
    /// A paragraph of text.
    Paragraph {
        /// The paragraph text.
        text: FormattedText,
    },
}

/// Mathematical model of a [`PageBlock`].
pub enum PageBlockView {
    Title { title: FormattedTextView },
    Paragraph { text: FormattedTextView },
}

impl DeepView for PageBlock {
    type V = PageBlockView;

    closed spec fn deep_view(&self) -> PageBlockView {
        match self {
            PageBlock::Title { title } => PageBlockView::Title { title: title.deep_view() },
            PageBlock::Paragraph { text } => PageBlockView::Paragraph { text: text.deep_view() },
        }
    }
}

impl Clone for PageBlock {
    /// The copy carries the same model.
    fn clone(&self) -> (r: Self)
        ensures
            r.deep_view() == self.deep_view(),
    {
        match self {
            PageBlock::Title { title } => PageBlock::Title { title: title.clone() },
            PageBlock::Paragraph { text } => PageBlock::Paragraph { text: text.clone() },
        }
    }
}

impl RObject for PageBlock {
    open spec fn wire_tag(&self) -> Seq<char> {
        PageBlock::spec_variant_tag(self.deep_view())
    }

    fn td_name(&self) -> (r: &'static str) {
        match self {
            PageBlock::Title { .. } => "pageBlockTitle",
            PageBlock::Paragraph { .. } => "pageBlockParagraph",
        }
    }
}

impl PageBlock {
    /// The declared tag of the active variant.
    pub open spec fn spec_variant_tag(m: PageBlockView) -> Seq<char> {
        match m {
            PageBlockView::Title { .. } => "pageBlockTitle"@,
            PageBlockView::Paragraph { .. } => "pageBlockParagraph"@,
        }
    }

    /// The wire form of a union model. Every variant of this union is
    /// concrete, so encoding is total.
    pub open spec fn spec_to_jv(m: PageBlockView) -> JsonView {
        match m {
            PageBlockView::Title { title } => JsonView::Obj(
                seq![
                    ("@type"@, JsonView::Str("pageBlockTitle"@)),
                    ("title"@, FormattedText::spec_to_jv(title)),
                ],
            ),
            PageBlockView::Paragraph { text } => JsonView::Obj(
                seq![
                    ("@type"@, JsonView::Str("pageBlockParagraph"@)),
                    ("text"@, FormattedText::spec_to_jv(text)),
                ],
            ),
        }
    }

    /// What decoding a tree into this union yields: the tag picks the
    /// variant, then that variant's fields are read, nested text included.
    pub open spec fn spec_from_jv(j: JsonView) -> Result<PageBlockView, DecodeErrView> {
        match spec_tag(j) {
            Option::None => Err(DecodeErrView::UnknownOrMissingTag),
            Option::Some(t) => if t == "pageBlockTitle"@ {
                match spec_get_obj(j->Obj_0, "title"@) {
                    Ok(tj) => match FormattedText::spec_from_jv(tj) {
                        Ok(title) => Ok(PageBlockView::Title { title }),
                        Err(e) => Err(e),
                    },
                    Err(e) => Err(e),
                }
            } else if t == "pageBlockParagraph"@ {
                match spec_get_obj(j->Obj_0, "text"@) {
                    Ok(tj) => match FormattedText::spec_from_jv(tj) {
                        Ok(text) => Ok(PageBlockView::Paragraph { text }),
                        Err(e) => Err(e),
                    },
                    Err(e) => Err(e),
                }
            } else {
                Err(DecodeErrView::UnknownOrMissingTag)
            },
        }
    }

    /// Encodes this union as a tree.
    pub fn to_value(&self) -> (r: Result<JsonValue, EncodeError>)
        ensures
            r matches Ok(v) && v.deep_view() == Self::spec_to_jv(self.deep_view()),
    {
        match self {
            PageBlock::Title { title } => {
                let tv = match title.to_value() {
                    Ok(v) => v,
                    Err(e) => {
                        return Err(e);
                    },
                };
                let mut fields: Vec<(String, JsonValue)> = Vec::new();
                fields.push(
                    (str_to_string("@type"), JsonValue::Str(str_to_string("pageBlockTitle"))),
                );
                fields.push((str_to_string("title"), tv));
                proof {
                    lemma_json_view_fields(fields@);
                    assert(fields@.len() == 2);
                    assert(fields@[0].0@ == "@type"@);
                    assert(fields@[1].0@ == "title"@);
                    assert(json_view_fields(fields@) =~= Self::spec_to_jv(
                        self.deep_view(),
                    )->Obj_0);
                }
                Ok(JsonValue::Obj(fields))
            },
            PageBlock::Paragraph { text } => {
                let tv = match text.to_value() {
                    Ok(v) => v,
                    Err(e) => {
                        return Err(e);
                    },
                };
                let mut fields: Vec<(String, JsonValue)> = Vec::new();
                fields.push(
                    (str_to_string("@type"), JsonValue::Str(str_to_string("pageBlockParagraph"))),
                );
                fields.push((str_to_string("text"), tv));
                proof {
                    lemma_json_view_fields(fields@);
                    assert(fields@.len() == 2);
                    assert(fields@[0].0@ == "@type"@);
                    assert(fields@[1].0@ == "text"@);
                    assert(json_view_fields(fields@) =~= Self::spec_to_jv(
                        self.deep_view(),
                    )->Obj_0);
                }
                Ok(JsonValue::Obj(fields))
            },
        }
    }

    /// Prints this union as JSON text.
    pub fn to_json(&self) -> (r: Result<String, EncodeError>)
        ensures
            r matches Ok(s) && s@ == text_of_json(Self::spec_to_jv(self.deep_view())),
    {
        match self.to_value() {
            Ok(v) => Ok(render_json(&v)),
            Err(e) => Err(e),
        }
    }

    /// Decodes a tree into this union; all-or-nothing.
    pub fn from_value(v: &JsonValue) -> (r: Result<Self, DecodeError>)
        ensures
            res_view(r) == Self::spec_from_jv(v.deep_view()),
    {
        let fields = match v {
            JsonValue::Obj(fields) => fields,
            _ => {
                return Err(DecodeError::UnknownOrMissingTag);
            },
        };
        let tag = match tag_of(fields) {
            Some(t) => t,
            None => {
                return Err(DecodeError::UnknownOrMissingTag);
            },
        };
        if str_eq(tag, "pageBlockTitle") {
            let tj = match get_obj(fields, "title") {
                Ok(v) => v,
                Err(e) => {
                    return Err(e);
                },
            };
            match FormattedText::from_value(tj) {
                Ok(title) => Ok(PageBlock::Title { title }),
                Err(e) => Err(e),
            }
        } else if str_eq(tag, "pageBlockParagraph") {
            let tj = match get_obj(fields, "text") {
                Ok(v) => v,
                Err(e) => {
                    return Err(e);
                },
            };
            match FormattedText::from_value(tj) {
                Ok(text) => Ok(PageBlock::Paragraph { text }),
                Err(e) => Err(e),
            }
        } else {
            Err(DecodeError::UnknownOrMissingTag)
        }
    }

    /// Decodes JSON text into this union.
    pub fn from_json(s: &str) -> (r: Result<Self, DecodeError>)
        ensures
            match json_of_text(s@) {
                Some(j) => res_view(r) == Self::spec_from_jv(j),
                None => res_view(r) == Err::<PageBlockView, _>(DecodeErrView::InvalidJson),
            },
    {
        match parse_json(s) {
            Some(v) => Self::from_value(&v),
            None => Err(DecodeError::InvalidJson),
        }
    }

    /// Decoding the wire form of a block yields it back, nested text
    /// included.
    pub proof fn lemma_round_trip(m: PageBlockView)
        ensures
            Self::spec_from_jv(Self::spec_to_jv(m)) == Ok::<_, DecodeErrView>(m),
    {
        reveal_strlit("@type");
        reveal_strlit("pageBlockTitle");
        reveal_strlit("pageBlockParagraph");
        reveal_strlit("title");
        reveal_strlit("text");
        let fs = Self::spec_to_jv(m)->Obj_0;
        assert(("@type"@).len() == 5);
        assert(("title"@).len() == 5);
        assert(("text"@).len() == 4);
        assert(("pageBlockTitle"@).len() == 14);
        assert(("pageBlockParagraph"@).len() == 18);
        assert(("@type"@)[0] == '@' && ("title"@)[0] == 't');
        match m {
            PageBlockView::Title { title } => {
                assert(jlookup(fs, "@type"@) == Some(JsonView::Str("pageBlockTitle"@)));
                lemma_jlookup_step(fs, "title"@);
                assert(fs.drop_first() =~= seq![("title"@, FormattedText::spec_to_jv(title))]);
                assert(jlookup(fs, "title"@) == Some(FormattedText::spec_to_jv(title)));
                assert(FormattedText::spec_to_jv(title) is Obj);
                assert(spec_get_obj(fs, "title"@) == Ok::<_, DecodeErrView>(
                    FormattedText::spec_to_jv(title),
                ));
                FormattedText::lemma_round_trip(title);
                assert(spec_tag(Self::spec_to_jv(m)) == Some("pageBlockTitle"@));
                assert(FormattedText::spec_from_jv(FormattedText::spec_to_jv(title)) == Ok::<
                    _,
                    DecodeErrView,
                >(title));
                assert(Self::spec_from_jv(Self::spec_to_jv(m)) == Ok::<_, DecodeErrView>(m));
            },
            PageBlockView::Paragraph { text } => {
                assert(jlookup(fs, "@type"@) == Some(JsonView::Str("pageBlockParagraph"@)));
                lemma_jlookup_step(fs, "text"@);
                assert(fs.drop_first() =~= seq![("text"@, FormattedText::spec_to_jv(text))]);
                assert(jlookup(fs, "text"@) == Some(FormattedText::spec_to_jv(text)));
                assert(FormattedText::spec_to_jv(text) is Obj);
                assert(spec_get_obj(fs, "text"@) == Ok::<_, DecodeErrView>(
                    FormattedText::spec_to_jv(text),
                ));
                FormattedText::lemma_round_trip(text);
                assert(Self::spec_from_jv(Self::spec_to_jv(m)) == Ok::<_, DecodeErrView>(m));
            },
        }
    }

    /// The wire form's discriminator is the active variant's declared tag.
    pub proof fn lemma_tag_fidelity(m: PageBlockView)
        ensures
            spec_tag(Self::spec_to_jv(m)) == Some(Self::spec_variant_tag(m)),
    {
        let fs = Self::spec_to_jv(m)->Obj_0;
        assert(fs.len() >= 1 && fs[0].0 == "@type"@);
    }

    /// A tree whose tag names no variant of this union is rejected with
    /// `UnknownOrMissingTag`; so is one carrying no tag at all.
    pub proof fn lemma_unknown_tag(j: JsonView)
        requires
            match spec_tag(j) {
                Option::Some(t) => t != "pageBlockTitle"@ && t != "pageBlockParagraph"@,
                Option::None => true,
            },
        ensures
            Self::spec_from_jv(j) == Err::<PageBlockView, _>(DecodeErrView::UnknownOrMissingTag),
    {
    }
}

} // verus!
