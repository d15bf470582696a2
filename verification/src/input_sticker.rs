//! Describes a sticker to be added to a sticker set: a union of an animated
//! and a static sticker. The active variant's tag travels under the
//! discriminator key `@type`. The static sticker's mask position is
//! optional: when unset it is absent from the wire form entirely, and an
//! absent key decodes back to unset.

use vstd::prelude::*;

use crate::errors::DecodeErrView;
use crate::errors::DecodeError;
use crate::errors::EncodeError;
use crate::errors::res_view;
use crate::input_file::InputFile;
use crate::input_file::InputFileView;
use crate::json::JsonValue;
use crate::json::JsonView;
use crate::json::get_obj;
use crate::json::get_opt_obj;
use crate::json::get_str;
use crate::json::jlookup;
use crate::json::json_view_fields;
use crate::json::lemma_jlookup_step;
use crate::json::lemma_json_view_fields;
use crate::json::spec_get_obj;
use crate::json::spec_get_opt_obj;
use crate::json::spec_get_str;
use crate::json::spec_tag;
use crate::json::str_eq;
use crate::json::str_to_string;
use crate::json::tag_of;
use crate::mask_position::MaskPosition;
use crate::mask_position::MaskPositionView;
use crate::robject::RObject;
use crate::wire::json_of_text;
use crate::wire::parse_json;
use crate::wire::render_json;
use crate::wire::text_of_json;

verus! {

/// Marker for the variants of [`InputSticker`].
pub trait TDInputSticker: RObject {

}

/// Describes a sticker to be added to a sticker set.
#[derive(Debug, PartialEq)]
pub enum InputSticker {
    /// Sentinel for a not-yet-chosen variant; never a valid wire value.
    _Default(()),
    /// An animated sticker.
    Animated(InputStickerAnimated),
    /// A static sticker.
    Static(InputStickerStatic),
}

/// Mathematical model of an [`InputSticker`].
pub enum InputStickerView {
    _Default,
    Animated(InputStickerAnimatedView),
    Static(InputStickerStaticView),
}

/// An animated sticker.
#[derive(Debug, PartialEq)]
pub struct InputStickerAnimated {
    /// File with the animated sticker.
    sticker: InputFile,
    /// Emojis corresponding to the sticker.
    emojis: String,
}

/// Mathematical model of an [`InputStickerAnimated`].
pub struct InputStickerAnimatedView {
    pub sticker: InputFileView,
    pub emojis: Seq<char>,
}

/// A static sticker.
#[derive(Debug, PartialEq)]
pub struct InputStickerStatic {
    /// Image with the sticker.
    sticker: InputFile,
    /// Emojis corresponding to the sticker.
    emojis: String,
    /// For masks, the position where the mask is placed; may be unset.
    mask_position: Option<MaskPosition>,
}

/// Mathematical model of an [`InputStickerStatic`].
pub struct InputStickerStaticView {
    pub sticker: InputFileView,
    pub emojis: Seq<char>,
    pub mask_position: Option<MaskPositionView>,
}

impl DeepView for InputSticker {
    type V = InputStickerView;

    closed spec fn deep_view(&self) -> InputStickerView {
        match self {
            InputSticker::_Default(_) => InputStickerView::_Default,
            InputSticker::Animated(t) => InputStickerView::Animated(t.deep_view()),
            InputSticker::Static(t) => InputStickerView::Static(t.deep_view()),
        }
    }
}

impl DeepView for InputStickerAnimated {
    type V = InputStickerAnimatedView;

    closed spec fn deep_view(&self) -> InputStickerAnimatedView {
        InputStickerAnimatedView { sticker: self.sticker.deep_view(), emojis: self.emojis@ }
    }
}

impl DeepView for InputStickerStatic {
    type V = InputStickerStaticView;

    closed spec fn deep_view(&self) -> InputStickerStaticView {
        InputStickerStaticView {
            sticker: self.sticker.deep_view(),
            emojis: self.emojis@,
            mask_position: self.mask_position.deep_view(),
        }
    }
}

impl Clone for InputSticker {
    /// The copy carries the same model.
    fn clone(&self) -> (r: Self)
        ensures
            r.deep_view() == self.deep_view(),
    {
        match self {
            InputSticker::_Default(_) => InputSticker::_Default(()),
            InputSticker::Animated(t) => InputSticker::Animated(t.clone()),
            InputSticker::Static(t) => InputSticker::Static(t.clone()),
        }
    }
}

impl Clone for InputStickerAnimated {
    /// The copy carries the same model.
    fn clone(&self) -> (r: Self)
        ensures
            r.deep_view() == self.deep_view(),
    {
        InputStickerAnimated { sticker: self.sticker.clone(), emojis: self.emojis.clone() }
    }
}

impl Clone for InputStickerStatic {
    /// The copy carries the same model.
    fn clone(&self) -> (r: Self)
        ensures
            r.deep_view() == self.deep_view(),
    {
        let mask_position = match &self.mask_position {
            Some(mp) => Some(mp.clone()),
            None => None,
        };
        InputStickerStatic {
            sticker: self.sticker.clone(),
            emojis: self.emojis.clone(),
            mask_position,
        }
    }
}

impl Default for InputSticker {
    /// The sentinel default variant.
    fn default() -> (r: Self)
        ensures
            r.deep_view() == InputStickerView::_Default,
    {
        InputSticker::_Default(())
    }
}

impl RObject for InputSticker {
    open spec fn wire_tag(&self) -> Seq<char> {
        InputSticker::spec_variant_tag(self.deep_view())
    }

    fn td_name(&self) -> (r: &'static str) {
        match self {
            InputSticker::Animated(t) => t.td_name(),
            InputSticker::Static(t) => t.td_name(),
            InputSticker::_Default(_) => "-1",
        }
    }
}

impl RObject for InputStickerAnimated {
    open spec fn wire_tag(&self) -> Seq<char> {
        "inputStickerAnimated"@
    }

    fn td_name(&self) -> (r: &'static str) {
        "inputStickerAnimated"
    }
}

impl RObject for InputStickerStatic {
    open spec fn wire_tag(&self) -> Seq<char> {
        "inputStickerStatic"@
    }

    fn td_name(&self) -> (r: &'static str) {
        "inputStickerStatic"
    }
}

impl TDInputSticker for InputStickerAnimated {

}

impl TDInputSticker for InputStickerStatic {

}

impl InputSticker {
    /// A union value is well formed when a concrete variant is active and
    /// the variant's own union fields are concrete too.
    pub open spec fn wf(m: InputStickerView) -> bool {
        match m {
            InputStickerView::Animated(t) => InputStickerAnimated::wf(t),
            InputStickerView::Static(t) => InputStickerStatic::wf(t),
            InputStickerView::_Default => false,
        }
    }

    /// The declared tag of the active variant; the sentinel answers the
    /// internal placeholder, which is never emitted.
    pub open spec fn spec_variant_tag(m: InputStickerView) -> Seq<char> {
        match m {
            InputStickerView::Animated(_) => "inputStickerAnimated"@,
            InputStickerView::Static(_) => "inputStickerStatic"@,
            InputStickerView::_Default => "-1"@,
        }
    }

    /// The wire form of a union model; meaningful only for well-formed
    /// models, since the sentinel has no wire form.
    pub open spec fn spec_to_jv(m: InputStickerView) -> JsonView {
        match m {
            InputStickerView::Animated(t) => InputStickerAnimated::spec_to_jv(t),
            InputStickerView::Static(t) => InputStickerStatic::spec_to_jv(t),
            InputStickerView::_Default => JsonView::Null,
        }
    }

    /// What decoding a tree into this union yields: the tag picks the
    /// variant, then that variant's record is decoded.
    pub open spec fn spec_from_jv(j: JsonView) -> Result<InputStickerView, DecodeErrView> {
        match spec_tag(j) {
            Option::None => Err(DecodeErrView::UnknownOrMissingTag),
            Option::Some(t) => if t == "inputStickerAnimated"@ {
                match InputStickerAnimated::spec_from_jv(j) {
                    Ok(q) => Ok(InputStickerView::Animated(q)),
                    Err(e) => Err(e),
                }
            } else if t == "inputStickerStatic"@ {
                match InputStickerStatic::spec_from_jv(j) {
                    Ok(q) => Ok(InputStickerView::Static(q)),
                    Err(e) => Err(e),
                }
            } else {
                Err(DecodeErrView::UnknownOrMissingTag)
            },
        }
    }

    /// Decodes JSON text into this union.
    pub fn from_json(s: &str) -> (r: Result<Self, DecodeError>)
        ensures
            match json_of_text(s@) {
                Some(j) => res_view(r) == Self::spec_from_jv(j),
                None => res_view(r) == Err::<InputStickerView, _>(DecodeErrView::InvalidJson),
            },
    {
        match parse_json(s) {
            Some(v) => Self::from_value(&v),
            None => Err(DecodeError::InvalidJson),
        }
    }

    /// Decodes a tree into this union; all-or-nothing.
    pub fn from_value(v: &JsonValue) -> (r: Result<Self, DecodeError>)
        ensures
            res_view(r) == Self::spec_from_jv(v.deep_view()),
    {
        let fields = match v {
            JsonValue::Obj(fields) => fields,
            _ => {
                return Err(DecodeError::UnknownOrMissingTag);
            },
        };
        let tag = match tag_of(fields) {
            Some(t) => t,
            None => {
                return Err(DecodeError::UnknownOrMissingTag);
            },
        };
        if str_eq(tag, "inputStickerAnimated") {
            match InputStickerAnimated::from_value(v) {
                Ok(t) => Ok(InputSticker::Animated(t)),
                Err(e) => Err(e),
            }
        } else if str_eq(tag, "inputStickerStatic") {
            match InputStickerStatic::from_value(v) {
                Ok(t) => Ok(InputSticker::Static(t)),
                Err(e) => Err(e),
            }
        } else {
            Err(DecodeError::UnknownOrMissingTag)
        }
    }

    /// Encodes this union as a tree; the sentinel, anywhere, is refused.
    pub fn to_value(&self) -> (r: Result<JsonValue, EncodeError>)
        ensures
            Self::wf(self.deep_view()) ==> (r matches Ok(v) && v.deep_view() == Self::spec_to_jv(
                self.deep_view(),
            )),
            !Self::wf(self.deep_view()) ==> r == Err::<JsonValue, EncodeError>(
                EncodeError::UndefinedVariant,
            ),
    {
        match self {
            InputSticker::_Default(_) => Err(EncodeError::UndefinedVariant),
            InputSticker::Animated(t) => t.to_value(),
            InputSticker::Static(t) => t.to_value(),
        }
    }

    /// Prints this union as JSON text; the sentinel, anywhere, is refused.
    pub fn to_json(&self) -> (r: Result<String, EncodeError>)
        ensures
            Self::wf(self.deep_view()) ==> (r matches Ok(s) && s@ == text_of_json(
                Self::spec_to_jv(self.deep_view()),
            )),
            !Self::wf(self.deep_view()) ==> r == Err::<String, EncodeError>(
                EncodeError::UndefinedVariant,
            ),
    {
        match self.to_value() {
            Ok(v) => Ok(render_json(&v)),
            Err(e) => Err(e),
        }
    }

    /// Whether no concrete variant has been chosen yet.
    pub fn _is_default(&self) -> (r: bool)
        ensures
            r == (self.deep_view() is _Default),
    {
        if let InputSticker::_Default(_) = self {
            true
        } else {
            false
        }
    }

    /// Whether the active variant is the animated sticker.
    pub fn is_animated(&self) -> (r: bool)
        ensures
            r == (self.deep_view() is Animated),
    {
        if let InputSticker::Animated(_) = self {
            true
        } else {
            false
        }
    }

    /// Whether the active variant is the static sticker.
    pub fn is_static(&self) -> (r: bool)
        ensures
            r == (self.deep_view() is Static),
    {
        if let InputSticker::Static(_) = self {
            true
        } else {
            false
        }
    }

    /// The animated variant's record, when it is active.
    pub fn as_animated(&self) -> (r: Option<&InputStickerAnimated>)
        ensures
            match r {
                Some(t) => self.deep_view() == InputStickerView::Animated(t.deep_view()),
                None => !(self.deep_view() is Animated),
            },
    {
        if let InputSticker::Animated(t) = self {
            return Some(t);
        }
        None
    }

    /// The static variant's record, when it is active.
    pub fn as_static(&self) -> (r: Option<&InputStickerStatic>)
        ensures
            match r {
                Some(t) => self.deep_view() == InputStickerView::Static(t.deep_view()),
                None => !(self.deep_view() is Static),
            },
    {
        if let InputSticker::Static(t) = self {
            return Some(t);
        }
        None
    }

    /// Calls `fnc` with the animated-sticker record when that variant is
    /// active, and hands the union back either way.
    pub fn on_animated<F: FnOnce(&InputStickerAnimated)>(&self, fnc: F) -> (r: &Self)
        requires
            forall|t: &InputStickerAnimated| #[trigger] fnc.requires((t,)),
        ensures
            r == self,
    {
        if let InputSticker::Animated(t) = self {
            fnc(t);
        }
        self
    }

    /// Calls `fnc` with the static-sticker record when that variant is
    /// active, and hands the union back either way.
    pub fn on_static<F: FnOnce(&InputStickerStatic)>(&self, fnc: F) -> (r: &Self)
        requires
            forall|t: &InputStickerStatic| #[trigger] fnc.requires((t,)),
        ensures
            r == self,
    {
        if let InputSticker::Static(t) = self {
            fnc(t);
        }
        self
    }

    /// Wraps an animated-sticker record into the union.
    pub fn animated(t: InputStickerAnimated) -> (r: Self)
        ensures
            r.deep_view() == InputStickerView::Animated(t.deep_view()),
    {
        InputSticker::Animated(t)
    }

    /// Wraps a static-sticker record into the union.
    pub fn static_(t: InputStickerStatic) -> (r: Self)
        ensures
            r.deep_view() == InputStickerView::Static(t.deep_view()),
    {
        InputSticker::Static(t)
    }

    /// An animated-sticker-tagged object missing its first required field
    /// is rejected with `MissingField` naming that field.
    pub proof fn lemma_missing_required_field(j: JsonView)
        requires
            spec_tag(j) == Some("inputStickerAnimated"@),
            jlookup(j->Obj_0, "sticker"@) is None,
        ensures
            Self::spec_from_jv(j) == Err::<InputStickerView, _>(
                DecodeErrView::MissingField("sticker"@),
            ),
    {
    }

    /// Decoding never yields the sentinel, at the union or inside its
    /// variants: every decoded value is well formed.
    pub proof fn lemma_decode_concrete(j: JsonView)
        ensures
            Self::spec_from_jv(j) is Ok ==> Self::wf(Self::spec_from_jv(j)->Ok_0),
    {
        if Self::spec_from_jv(j) is Ok {
            InputStickerAnimated::lemma_decode_concrete(j);
            InputStickerStatic::lemma_decode_concrete(j);
        }
    }

    /// Decoding the wire form of a well-formed value yields it back.
    pub proof fn lemma_round_trip(m: InputStickerView)
        requires
            Self::wf(m),
        ensures
            Self::spec_from_jv(Self::spec_to_jv(m)) == Ok::<_, DecodeErrView>(m),
    {
        reveal_strlit("inputStickerAnimated");
        reveal_strlit("inputStickerStatic");
        assert(("inputStickerAnimated"@).len() == 20);
        assert(("inputStickerStatic"@).len() == 18);
        match m {
            InputStickerView::Animated(q) => {
                InputStickerAnimated::lemma_tag_fidelity(q);
                InputStickerAnimated::lemma_round_trip(q);
            },
            InputStickerView::Static(q) => {
                InputStickerStatic::lemma_tag_fidelity(q);
                InputStickerStatic::lemma_round_trip(q);
            },
            InputStickerView::_Default => {},
        }
    }

    /// The wire form's discriminator is the active variant's declared tag.
    pub proof fn lemma_tag_fidelity(m: InputStickerView)
        requires
            Self::wf(m),
        ensures
            spec_tag(Self::spec_to_jv(m)) == Some(Self::spec_variant_tag(m)),
    {
        match m {
            InputStickerView::Animated(q) => {
                InputStickerAnimated::lemma_tag_fidelity(q);
            },
            InputStickerView::Static(q) => {
                InputStickerStatic::lemma_tag_fidelity(q);
            },
            InputStickerView::_Default => {},
        }
    }

    /// A tree whose tag names no variant of this union is rejected with
    /// `UnknownOrMissingTag`; so is one carrying no tag at all.
    pub proof fn lemma_unknown_tag(j: JsonView)
        requires
            match spec_tag(j) {
                Option::Some(t) => t != "inputStickerAnimated"@ && t != "inputStickerStatic"@,
                Option::None => true,
            },
        ensures
            Self::spec_from_jv(j) == Err::<InputStickerView, _>(DecodeErrView::UnknownOrMissingTag),
    {
    }
}

impl InputStickerAnimated {
    /// A record model is well formed when its union-typed fields are
    /// concrete.
    pub open spec fn wf(m: InputStickerAnimatedView) -> bool {
        InputFile::wf(m.sticker)
    }

    /// The wire form of a record model: the discriminator, then every field.
    pub open spec fn spec_to_jv(m: InputStickerAnimatedView) -> JsonView {
        JsonView::Obj(
            seq![
                ("@type"@, JsonView::Str("inputStickerAnimated"@)),
                ("sticker"@, InputFile::spec_to_jv(m.sticker)),
                ("emojis"@, JsonView::Str(m.emojis)),
            ],
        )
    }

    /// What decoding a tree into this record yields.
    pub open spec fn spec_from_jv(j: JsonView) -> Result<InputStickerAnimatedView, DecodeErrView> {
        if spec_tag(j) != Some("inputStickerAnimated"@) {
            Err(DecodeErrView::UnknownOrMissingTag)
        } else {
            match spec_get_obj(j->Obj_0, "sticker"@) {
                Err(e) => Err(e),
                Ok(sj) => match InputFile::spec_from_jv(sj) {
                    Err(e) => Err(e),
                    Ok(sticker) => match spec_get_str(j->Obj_0, "emojis"@) {
                        Err(e) => Err(e),
                        Ok(emojis) => Ok(InputStickerAnimatedView { sticker, emojis }),
                    },
                },
            }
        }
    }

    /// Decodes JSON text into this record.
    pub fn from_json(s: &str) -> (r: Result<Self, DecodeError>)
        ensures
            match json_of_text(s@) {
                Some(j) => res_view(r) == Self::spec_from_jv(j),
                None => res_view(r) == Err::<InputStickerAnimatedView, _>(
                    DecodeErrView::InvalidJson,
                ),
            },
    {
        match parse_json(s) {
            Some(v) => Self::from_value(&v),
            None => Err(DecodeError::InvalidJson),
        }
    }

    /// Decodes a tree into this record; all-or-nothing. A decoded record is
    /// always well formed: the nested union comes out concrete.
    pub fn from_value(v: &JsonValue) -> (r: Result<Self, DecodeError>)
        ensures
            res_view(r) == Self::spec_from_jv(v.deep_view()),
    {
        let fields = match v {
            JsonValue::Obj(fields) => fields,
            _ => {
                return Err(DecodeError::UnknownOrMissingTag);
            },
        };
        let tag_ok = match tag_of(fields) {
            Some(t) => str_eq(t, "inputStickerAnimated"),
            None => false,
        };
        if !tag_ok {
            return Err(DecodeError::UnknownOrMissingTag);
        }
        let sj = match get_obj(fields, "sticker") {
            Ok(x) => x,
            Err(e) => {
                return Err(e);
            },
        };
        let sticker = match InputFile::from_value(sj) {
            Ok(x) => x,
            Err(e) => {
                return Err(e);
            },
        };
        let emojis = match get_str(fields, "emojis") {
            Ok(s) => s,
            Err(e) => {
                return Err(e);
            },
        };
        Ok(InputStickerAnimated { sticker, emojis })
    }

    /// Encodes this record as a tree; a sentinel in the sticker field is
    /// refused, since it has no wire form.
    pub fn to_value(&self) -> (r: Result<JsonValue, EncodeError>)
        ensures
            Self::wf(self.deep_view()) ==> (r matches Ok(v) && v.deep_view() == Self::spec_to_jv(
                self.deep_view(),
            )),
            !Self::wf(self.deep_view()) ==> r == Err::<JsonValue, EncodeError>(
                EncodeError::UndefinedVariant,
            ),
    {
        let sv = match self.sticker.to_value() {
            Ok(v) => v,
            Err(e) => {
                return Err(e);
            },
        };
        let mut fields: Vec<(String, JsonValue)> = Vec::new();
        fields.push(
            (str_to_string("@type"), JsonValue::Str(str_to_string("inputStickerAnimated"))),
        );
        fields.push((str_to_string("sticker"), sv));
        fields.push((str_to_string("emojis"), JsonValue::Str(self.emojis.clone())));
        proof {
            lemma_json_view_fields(fields@);
            assert(fields@.len() == 3);
            assert(fields@[0].0@ == "@type"@);
            assert(fields@[1].0@ == "sticker"@);
            assert(fields@[2].0@ == "emojis"@);
            assert(json_view_fields(fields@) =~= Self::spec_to_jv(self.deep_view())->Obj_0);
        }
        Ok(JsonValue::Obj(fields))
    }

    /// Prints this record as JSON text; a sentinel in the sticker field is
    /// refused.
    pub fn to_json(&self) -> (r: Result<String, EncodeError>)
        ensures
            Self::wf(self.deep_view()) ==> (r matches Ok(s) && s@ == text_of_json(
                Self::spec_to_jv(self.deep_view()),
            )),
            !Self::wf(self.deep_view()) ==> r == Err::<String, EncodeError>(
                EncodeError::UndefinedVariant,
            ),
    {
        match self.to_value() {
            Ok(v) => Ok(render_json(&v)),
            Err(e) => Err(e),
        }
    }

    /// A builder staging an all-default animated-sticker record.
    pub fn builder() -> (r: RTDInputStickerAnimatedBuilder)
        ensures
            r.deep_view() == (InputStickerAnimatedView {
                sticker: InputFileView::_Default,
                emojis: Seq::empty(),
            }),
    {
        RTDInputStickerAnimatedBuilder {
            inner: InputStickerAnimated { sticker: InputFile::default(), emojis: String::new() },
        }
    }

    /// The sticker file.
    pub fn sticker(&self) -> (r: &InputFile)
        ensures
            r.deep_view() == self.deep_view().sticker,
    {
        &self.sticker
    }

    /// The emojis corresponding to the sticker.
    pub fn emojis(&self) -> (r: &String)
        ensures
            r@ == self.deep_view().emojis,
    {
        &self.emojis
    }

    /// Decoding never yields a sentinel inside: the decoded sticker field
    /// carries a concrete variant.
    pub proof fn lemma_decode_concrete(j: JsonView)
        ensures
            Self::spec_from_jv(j) is Ok ==> Self::wf(Self::spec_from_jv(j)->Ok_0),
    {
        if Self::spec_from_jv(j) is Ok {
            let sj = spec_get_obj(j->Obj_0, "sticker"@)->Ok_0;
            InputFile::lemma_decode_concrete(sj);
        }
    }

    /// Decoding the wire form of a well-formed record yields it back.
    pub proof fn lemma_round_trip(m: InputStickerAnimatedView)
        requires
            Self::wf(m),
        ensures
            Self::spec_from_jv(Self::spec_to_jv(m)) == Ok::<_, DecodeErrView>(m),
    {
        reveal_strlit("@type");
        reveal_strlit("inputStickerAnimated");
        reveal_strlit("sticker");
        reveal_strlit("emojis");
        let fs = Self::spec_to_jv(m)->Obj_0;
        assert(("@type"@).len() == 5);
        assert(("sticker"@).len() == 7);
        assert(("emojis"@).len() == 6);
        let f1 = fs.drop_first();
        let f2 = f1.drop_first();
        assert(f1 =~= fs.subrange(1, 3));
        assert(f2 =~= fs.subrange(2, 3));
        assert(jlookup(fs, "@type"@) == Some(JsonView::Str("inputStickerAnimated"@)));
        lemma_jlookup_step(fs, "sticker"@);
        assert(jlookup(fs, "sticker"@) == Some(InputFile::spec_to_jv(m.sticker)));
        assert(InputFile::spec_to_jv(m.sticker) is Obj);
        assert(spec_get_obj(fs, "sticker"@) == Ok::<_, DecodeErrView>(
            InputFile::spec_to_jv(m.sticker),
        ));
        InputFile::lemma_round_trip(m.sticker);
        lemma_jlookup_step(fs, "emojis"@);
        lemma_jlookup_step(f1, "emojis"@);
        assert(jlookup(fs, "emojis"@) == Some(JsonView::Str(m.emojis)));
    }

    /// The wire form's discriminator is the record's declared tag.
    pub proof fn lemma_tag_fidelity(m: InputStickerAnimatedView)
        ensures
            spec_tag(Self::spec_to_jv(m)) == Some("inputStickerAnimated"@),
    {
        let fs = Self::spec_to_jv(m)->Obj_0;
        assert(fs.len() >= 1 && fs[0].0 == "@type"@);
    }
}

/// Staging area for an [`InputStickerAnimated`] under construction.
#[derive(Debug)]
pub struct RTDInputStickerAnimatedBuilder {
    inner: InputStickerAnimated,
}

impl DeepView for RTDInputStickerAnimatedBuilder {
    type V = InputStickerAnimatedView;

    closed spec fn deep_view(&self) -> InputStickerAnimatedView {
        self.inner.deep_view()
    }
}

impl RTDInputStickerAnimatedBuilder {
    /// Freezes the staged record into an immutable copy; the builder stays
    /// usable and later changes to it leave the copy untouched.
    pub fn build(&self) -> (r: InputStickerAnimated)
        ensures
            r.deep_view() == self.deep_view(),
    {
        self.inner.clone()
    }

    /// Stages the sticker file, overwriting any earlier value.
    pub fn sticker(&mut self, sticker: InputFile)
        ensures
            final(self).deep_view() == (InputStickerAnimatedView {
                sticker: sticker.deep_view(),
                ..old(self).deep_view()
            }),
    {
        self.inner.sticker = sticker;
    }

    /// Stages the emojis, overwriting any earlier value.
    pub fn emojis(&mut self, emojis: &str)
        ensures
            final(self).deep_view() == (InputStickerAnimatedView {
                emojis: emojis@,
                ..old(self).deep_view()
            }),
    {
        self.inner.emojis = str_to_string(emojis);
    }
}

impl InputStickerStatic {
    /// A record model is well formed when its union-typed fields are
    /// concrete.
    pub open spec fn wf(m: InputStickerStaticView) -> bool {
        InputFile::wf(m.sticker)
    }

    /// The wire form of a record model: the discriminator, then every
    /// field; an unset mask position is omitted entirely, never written as
    /// null.
    pub open spec fn spec_to_jv(m: InputStickerStaticView) -> JsonView {
        JsonView::Obj(
            seq![
                ("@type"@, JsonView::Str("inputStickerStatic"@)),
                ("sticker"@, InputFile::spec_to_jv(m.sticker)),
                ("emojis"@, JsonView::Str(m.emojis)),
            ] + match m.mask_position {
                Option::Some(mp) => seq![("mask_position"@, MaskPosition::spec_to_jv(mp))],
                Option::None => Seq::empty(),
            },
        )
    }

    /// What decoding a tree into this record yields; an absent mask
    /// position decodes to unset, not to a default value.
    pub open spec fn spec_from_jv(j: JsonView) -> Result<InputStickerStaticView, DecodeErrView> {
        if spec_tag(j) != Some("inputStickerStatic"@) {
            Err(DecodeErrView::UnknownOrMissingTag)
        } else {
            match spec_get_obj(j->Obj_0, "sticker"@) {
                Err(e) => Err(e),
                Ok(sj) => match InputFile::spec_from_jv(sj) {
                    Err(e) => Err(e),
                    Ok(sticker) => match spec_get_str(j->Obj_0, "emojis"@) {
                        Err(e) => Err(e),
                        Ok(emojis) => match spec_get_opt_obj(j->Obj_0, "mask_position"@) {
                            Err(e) => Err(e),
                            Ok(Option::None) => Ok(
                                InputStickerStaticView {
                                    sticker,
                                    emojis,
                                    mask_position: Option::None,
                                },
                            ),
                            Ok(Option::Some(mj)) => match MaskPosition::spec_from_jv(mj) {
                                Err(e) => Err(e),
                                Ok(mp) => Ok(
                                    InputStickerStaticView {
                                        sticker,
                                        emojis,
                                        mask_position: Option::Some(mp),
                                    },
                                ),
                            },
                        },
                    },
                },
            }
        }
    }

    /// Decodes JSON text into this record.
    pub fn from_json(s: &str) -> (r: Result<Self, DecodeError>)
        ensures
            match json_of_text(s@) {
                Some(j) => res_view(r) == Self::spec_from_jv(j),
                None => res_view(r) == Err::<InputStickerStaticView, _>(DecodeErrView::InvalidJson),
            },
    {
        match parse_json(s) {
            Some(v) => Self::from_value(&v),
            None => Err(DecodeError::InvalidJson),
        }
    }

    /// Decodes a tree into this record; all-or-nothing.
    pub fn from_value(v: &JsonValue) -> (r: Result<Self, DecodeError>)
        ensures
            res_view(r) == Self::spec_from_jv(v.deep_view()),
    {
        let fields = match v {
            JsonValue::Obj(fields) => fields,
            _ => {
                return Err(DecodeError::UnknownOrMissingTag);
            },
        };
        let tag_ok = match tag_of(fields) {
            Some(t) => str_eq(t, "inputStickerStatic"),
            None => false,
        };
        if !tag_ok {
            return Err(DecodeError::UnknownOrMissingTag);
        }
        let sj = match get_obj(fields, "sticker") {
            Ok(x) => x,
            Err(e) => {
                return Err(e);
            },
        };
        let sticker = match InputFile::from_value(sj) {
            Ok(x) => x,
            Err(e) => {
                return Err(e);
            },
        };
        let emojis = match get_str(fields, "emojis") {
            Ok(s) => s,
            Err(e) => {
                return Err(e);
            },
        };
        let mask_position = match get_opt_obj(fields, "mask_position") {
            Ok(None) => None,
            Ok(Some(mj)) => match MaskPosition::from_value(mj) {
                Ok(mp) => Some(mp),
                Err(e) => {
                    return Err(e);
                },
            },
            Err(e) => {
                return Err(e);
            },
        };
        Ok(InputStickerStatic { sticker, emojis, mask_position })
    }

    /// Encodes this record as a tree; a sentinel in the sticker field is
    /// refused. An unset mask position leaves its key out entirely.
    pub fn to_value(&self) -> (r: Result<JsonValue, EncodeError>)
        ensures
            Self::wf(self.deep_view()) ==> (r matches Ok(v) && v.deep_view() == Self::spec_to_jv(
                self.deep_view(),
            )),
            !Self::wf(self.deep_view()) ==> r == Err::<JsonValue, EncodeError>(
                EncodeError::UndefinedVariant,
            ),
    {
        let sv = match self.sticker.to_value() {
            Ok(v) => v,
            Err(e) => {
                return Err(e);
            },
        };
        let mut fields: Vec<(String, JsonValue)> = Vec::new();
        fields.push((str_to_string("@type"), JsonValue::Str(str_to_string("inputStickerStatic"))));
        fields.push((str_to_string("sticker"), sv));
        fields.push((str_to_string("emojis"), JsonValue::Str(self.emojis.clone())));
        match &self.mask_position {
            Some(mp) => {
                let mv = match mp.to_value() {
                    Ok(v) => v,
                    Err(e) => {
                        return Err(e);
                    },
                };
                fields.push((str_to_string("mask_position"), mv));
                proof {
                    lemma_json_view_fields(fields@);
                    assert(fields@.len() == 4);
                    assert(fields@[0].0@ == "@type"@);
                    assert(fields@[1].0@ == "sticker"@);
                    assert(fields@[2].0@ == "emojis"@);
                    assert(fields@[3].0@ == "mask_position"@);
                    assert(json_view_fields(fields@) =~= Self::spec_to_jv(
                        self.deep_view(),
                    )->Obj_0);
                }
                Ok(JsonValue::Obj(fields))
            },
            None => {
                proof {
                    lemma_json_view_fields(fields@);
                    assert(fields@.len() == 3);
                    assert(fields@[0].0@ == "@type"@);
                    assert(fields@[1].0@ == "sticker"@);
                    assert(fields@[2].0@ == "emojis"@);
                    assert(json_view_fields(fields@) =~= Self::spec_to_jv(
                        self.deep_view(),
                    )->Obj_0);
                }
                Ok(JsonValue::Obj(fields))
            },
        }
    }

    /// Prints this record as JSON text; a sentinel in the sticker field is
    /// refused.
    pub fn to_json(&self) -> (r: Result<String, EncodeError>)
        ensures
            Self::wf(self.deep_view()) ==> (r matches Ok(s) && s@ == text_of_json(
                Self::spec_to_jv(self.deep_view()),
            )),
            !Self::wf(self.deep_view()) ==> r == Err::<String, EncodeError>(
                EncodeError::UndefinedVariant,
            ),
    {
        match self.to_value() {
            Ok(v) => Ok(render_json(&v)),
            Err(e) => Err(e),
        }
    }

    /// A builder staging an all-default static-sticker record.
    pub fn builder() -> (r: RTDInputStickerStaticBuilder)
        ensures
            r.deep_view() == (InputStickerStaticView {
                sticker: InputFileView::_Default,
                emojis: Seq::empty(),
                mask_position: Option::None,
            }),
    {
        RTDInputStickerStaticBuilder {
            inner: InputStickerStatic {
                sticker: InputFile::default(),
                emojis: String::new(),
                mask_position: None,
            },
        }
    }

    /// The sticker image.
    pub fn sticker(&self) -> (r: &InputFile)
        ensures
            r.deep_view() == self.deep_view().sticker,
    {
        &self.sticker
    }

    /// The emojis corresponding to the sticker.
    pub fn emojis(&self) -> (r: &String)
        ensures
            r@ == self.deep_view().emojis,
    {
        &self.emojis
    }

    /// The mask position, when one was given.
    pub fn mask_position(&self) -> (r: &Option<MaskPosition>)
        ensures
            r.deep_view() == self.deep_view().mask_position,
    {
        &self.mask_position
    }

    /// Decoding never yields a sentinel inside: the decoded sticker field
    /// carries a concrete variant.
    pub proof fn lemma_decode_concrete(j: JsonView)
        ensures
            Self::spec_from_jv(j) is Ok ==> Self::wf(Self::spec_from_jv(j)->Ok_0),
    {
        if Self::spec_from_jv(j) is Ok {
            let sj = spec_get_obj(j->Obj_0, "sticker"@)->Ok_0;
            InputFile::lemma_decode_concrete(sj);
        }
    }

    /// Decoding the wire form of a well-formed record yields it back, the
    /// unset mask position staying unset.
    pub proof fn lemma_round_trip(m: InputStickerStaticView)
        requires
            Self::wf(m),
        ensures
            Self::spec_from_jv(Self::spec_to_jv(m)) == Ok::<_, DecodeErrView>(m),
    {
        reveal_strlit("@type");
        reveal_strlit("inputStickerStatic");
        reveal_strlit("sticker");
        reveal_strlit("emojis");
        reveal_strlit("mask_position");
        let fs = Self::spec_to_jv(m)->Obj_0;
        assert(("@type"@).len() == 5);
        assert(("sticker"@).len() == 7);
        assert(("emojis"@).len() == 6);
        assert(("mask_position"@).len() == 13);
        let f1 = fs.drop_first();
        let f2 = f1.drop_first();
        match m.mask_position {
            Option::None => {
                assert(fs.len() == 3);
                assert(f1 =~= fs.subrange(1, 3));
                assert(f2 =~= fs.subrange(2, 3));
            },
            Option::Some(mp) => {
                assert(fs.len() == 4);
                assert(f1 =~= fs.subrange(1, 4));
                assert(f2 =~= fs.subrange(2, 4));
            },
        }
        let f3 = f2.drop_first();
        assert(jlookup(fs, "@type"@) == Some(JsonView::Str("inputStickerStatic"@)));
        lemma_jlookup_step(fs, "sticker"@);
        assert(jlookup(fs, "sticker"@) == Some(InputFile::spec_to_jv(m.sticker)));
        assert(InputFile::spec_to_jv(m.sticker) is Obj);
        InputFile::lemma_round_trip(m.sticker);
        lemma_jlookup_step(fs, "emojis"@);
        lemma_jlookup_step(f1, "emojis"@);
        assert(jlookup(fs, "emojis"@) == Some(JsonView::Str(m.emojis)));
        lemma_jlookup_step(fs, "mask_position"@);
        lemma_jlookup_step(f1, "mask_position"@);
        lemma_jlookup_step(f2, "mask_position"@);
        match m.mask_position {
            Option::None => {
                assert(f3.len() == 0);
                assert(jlookup(fs, "mask_position"@) is None);
            },
            Option::Some(mp) => {
                assert(f3 =~= seq![("mask_position"@, MaskPosition::spec_to_jv(mp))]);
                assert(jlookup(fs, "mask_position"@) == Some(MaskPosition::spec_to_jv(mp)));
                assert(MaskPosition::spec_to_jv(mp) is Obj);
                MaskPosition::lemma_round_trip(mp);
            },
        }
    }

    /// Encoding with the mask position unset omits its key entirely from
    /// the wire form.
    pub proof fn lemma_optional_omitted(m: InputStickerStaticView)
        requires
            m.mask_position is None,
        ensures
            jlookup(Self::spec_to_jv(m)->Obj_0, "mask_position"@) is None,
    {
        reveal_strlit("@type");
        reveal_strlit("sticker");
        reveal_strlit("emojis");
        reveal_strlit("mask_position");
        let fs = Self::spec_to_jv(m)->Obj_0;
        assert(("@type"@).len() == 5);
        assert(("sticker"@).len() == 7);
        assert(("emojis"@).len() == 6);
        assert(("mask_position"@).len() == 13);
        let f1 = fs.drop_first();
        let f2 = f1.drop_first();
        assert(fs.len() == 3);
        assert(f1 =~= fs.subrange(1, 3));
        assert(f2 =~= fs.subrange(2, 3));
        lemma_jlookup_step(fs, "mask_position"@);
        lemma_jlookup_step(f1, "mask_position"@);
        lemma_jlookup_step(f2, "mask_position"@);
        assert(f2.drop_first().len() == 0);
    }

    /// The wire form's discriminator is the record's declared tag.
    pub proof fn lemma_tag_fidelity(m: InputStickerStaticView)
        ensures
            spec_tag(Self::spec_to_jv(m)) == Some("inputStickerStatic"@),
    {
        let fs = Self::spec_to_jv(m)->Obj_0;
        assert(fs.len() >= 1 && fs[0].0 == "@type"@);
    }
}

/// Staging area for an [`InputStickerStatic`] under construction.
#[derive(Debug)]
pub struct RTDInputStickerStaticBuilder {
    inner: InputStickerStatic,
}

impl DeepView for RTDInputStickerStaticBuilder {
    type V = InputStickerStaticView;

    closed spec fn deep_view(&self) -> InputStickerStaticView {
        self.inner.deep_view()
    }
}

impl RTDInputStickerStaticBuilder {
    /// Freezes the staged record into an immutable copy; the builder stays
    /// usable and later changes to it leave the copy untouched.
    pub fn build(&self) -> (r: InputStickerStatic)
        ensures
            r.deep_view() == self.deep_view(),
    {
        self.inner.clone()
    }

    /// Stages the sticker image, overwriting any earlier value.
    pub fn sticker(&mut self, sticker: InputFile)
        ensures
            final(self).deep_view() == (InputStickerStaticView {
                sticker: sticker.deep_view(),
                ..old(self).deep_view()
            }),
    {
        self.inner.sticker = sticker;
    }

    /// Stages the emojis, overwriting any earlier value.
    pub fn emojis(&mut self, emojis: &str)
        ensures
            final(self).deep_view() == (InputStickerStaticView {
                emojis: emojis@,
                ..old(self).deep_view()
            }),
    {
        self.inner.emojis = str_to_string(emojis);
    }

    /// Stages the mask position, overwriting any earlier value.
    pub fn mask_position(&mut self, mask_position: MaskPosition)
        ensures
            final(self).deep_view() == (InputStickerStaticView {
                mask_position: Option::Some(mask_position.deep_view()),
                ..old(self).deep_view()
            }),
    {
        self.inner.mask_position = Some(mask_position);
    }
}

} // verus!
