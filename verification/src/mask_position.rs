//! The position where a mask is placed on a face, carried on the wire under
//! the tag `maskPosition`. Shifts and scale are given in permille of the
//! sticker size, so wire values stay integral.

use vstd::prelude::*;

use crate::errors::DecodeErrView;
use crate::errors::DecodeError;
use crate::errors::EncodeError;
use crate::errors::res_view;
use crate::json::JsonValue;
use crate::json::JsonView;
use crate::json::get_i64;
use crate::json::get_str;
use crate::json::jlookup;
use crate::json::json_view_fields;
use crate::json::lemma_jlookup_step;
use crate::json::lemma_json_view_fields;
use crate::json::spec_get_i64;
use crate::json::spec_get_str;
use crate::json::spec_tag;
use crate::json::str_eq;
use crate::json::str_to_string;
use crate::json::tag_of;
use crate::robject::RObject;
use crate::wire::json_of_text;
use crate::wire::parse_json;
use crate::wire::render_json;
use crate::wire::text_of_json;

verus! {

/// Position on a face where a mask is placed.
#[derive(Debug, PartialEq)]
pub struct MaskPosition {
    /// The face anchor the shifts are measured from.
    point: String,
    /// Horizontal shift from the anchor, in permille of the sticker width.
    x_shift: i64,
    /// Vertical shift from the anchor, in permille of the sticker height.
    y_shift: i64,
    /// Mask scale, in permille.
    scale: i64,
}

/// Mathematical model of a [`MaskPosition`].
pub struct MaskPositionView {
    pub point: Seq<char>,
    pub x_shift: i64,
    pub y_shift: i64,
    pub scale: i64,
}

impl DeepView for MaskPosition {
    type V = MaskPositionView;

    closed spec fn deep_view(&self) -> MaskPositionView {
        MaskPositionView {
            point: self.point@,
            x_shift: self.x_shift,
            y_shift: self.y_shift,
            scale: self.scale,
        }
    }
}

impl Clone for MaskPosition {
    /// The copy carries the same model.
    fn clone(&self) -> (r: Self)
        ensures
            r.deep_view() == self.deep_view(),
    {
        MaskPosition {
            point: self.point.clone(),
            x_shift: self.x_shift,
            y_shift: self.y_shift,
            scale: self.scale,
        }
    }
}

impl RObject for MaskPosition {
    open spec fn wire_tag(&self) -> Seq<char> {
        "maskPosition"@
    }

    fn td_name(&self) -> (r: &'static str) {
        "maskPosition"
    }
}

impl MaskPosition {
    /// The wire form of a record model: the discriminator, then every field.
    pub open spec fn spec_to_jv(m: MaskPositionView) -> JsonView {
        JsonView::Obj(
            seq![
                ("@type"@, JsonView::Str("maskPosition"@)),
                ("point"@, JsonView::Str(m.point)),
                ("x_shift"@, JsonView::Int(m.x_shift)),
                ("y_shift"@, JsonView::Int(m.y_shift)),
                ("scale"@, JsonView::Int(m.scale)),
            ],
        )
    }

    /// What decoding a tree into this record yields.
    pub open spec fn spec_from_jv(j: JsonView) -> Result<MaskPositionView, DecodeErrView> {
        if spec_tag(j) != Some("maskPosition"@) {
            Err(DecodeErrView::UnknownOrMissingTag)
        } else {
            match spec_get_str(j->Obj_0, "point"@) {
                Err(e) => Err(e),
                Ok(point) => match spec_get_i64(j->Obj_0, "x_shift"@) {
                    Err(e) => Err(e),
                    Ok(x_shift) => match spec_get_i64(j->Obj_0, "y_shift"@) {
                        Err(e) => Err(e),
                        Ok(y_shift) => match spec_get_i64(j->Obj_0, "scale"@) {
                            Err(e) => Err(e),
                            Ok(scale) => Ok(MaskPositionView { point, x_shift, y_shift, scale }),
                        },
                    },
                },
            }
        }
    }

    /// Builds a record from its parts.
    pub fn new(point: String, x_shift: i64, y_shift: i64, scale: i64) -> (r: Self)
        ensures
            r.deep_view() == (MaskPositionView { point: point@, x_shift, y_shift, scale }),
    {
        MaskPosition { point, x_shift, y_shift, scale }
    }

    /// The face anchor.
    pub fn point(&self) -> (r: &String)
        ensures
            r@ == self.deep_view().point,
    {
        &self.point
    }

    /// The horizontal shift in permille.
    pub fn x_shift(&self) -> (r: i64)
        ensures
            r == self.deep_view().x_shift,
    {
        self.x_shift
    }

    /// The vertical shift in permille.
    pub fn y_shift(&self) -> (r: i64)
        ensures
            r == self.deep_view().y_shift,
    {
        self.y_shift
    }

    /// The scale in permille.
    pub fn scale(&self) -> (r: i64)
        ensures
            r == self.deep_view().scale,
    {
        self.scale
    }

    /// Encodes this record as a tree.
    pub fn to_value(&self) -> (r: Result<JsonValue, EncodeError>)
        ensures
            r matches Ok(v) && v.deep_view() == Self::spec_to_jv(self.deep_view()),
    {
        let mut fields: Vec<(String, JsonValue)> = Vec::new();
        fields.push((str_to_string("@type"), JsonValue::Str(str_to_string("maskPosition"))));
        fields.push((str_to_string("point"), JsonValue::Str(self.point.clone())));
        fields.push((str_to_string("x_shift"), JsonValue::Int(self.x_shift)));
        fields.push((str_to_string("y_shift"), JsonValue::Int(self.y_shift)));
        fields.push((str_to_string("scale"), JsonValue::Int(self.scale)));
        proof {
            lemma_json_view_fields(fields@);
            assert(fields@.len() == 5);
            assert(fields@[0].0@ == "@type"@);
            assert(fields@[1].0@ == "point"@);
            assert(fields@[2].0@ == "x_shift"@);
            assert(fields@[3].0@ == "y_shift"@);
            assert(fields@[4].0@ == "scale"@);
            assert(json_view_fields(fields@) =~= Self::spec_to_jv(self.deep_view())->Obj_0);
        }
        Ok(JsonValue::Obj(fields))
    }

    /// Prints this record as JSON text.
    pub fn to_json(&self) -> (r: Result<String, EncodeError>)
        ensures
            r matches Ok(s) && s@ == text_of_json(Self::spec_to_jv(self.deep_view())),
    {
        match self.to_value() {
            Ok(v) => Ok(render_json(&v)),
            Err(e) => Err(e),
        }
    }

    /// Decodes a tree into this record; all-or-nothing.
    pub fn from_value(v: &JsonValue) -> (r: Result<Self, DecodeError>)
        ensures
            res_view(r) == Self::spec_from_jv(v.deep_view()),
    {
        let fields = match v {
            JsonValue::Obj(fields) => fields,
            _ => {
                return Err(DecodeError::UnknownOrMissingTag);
            },
        };
        let tag_ok = match tag_of(fields) {
            Some(t) => str_eq(t, "maskPosition"),
            None => false,
        };
        if !tag_ok {
            return Err(DecodeError::UnknownOrMissingTag);
        }
        let point = match get_str(fields, "point") {
            Ok(s) => s,
            Err(e) => {
                return Err(e);
            },
        };
        let x_shift = match get_i64(fields, "x_shift") {
            Ok(n) => n,
            Err(e) => {
                return Err(e);
            },
        };
        let y_shift = match get_i64(fields, "y_shift") {
            Ok(n) => n,
            Err(e) => {
                return Err(e);
            },
        };
        let scale = match get_i64(fields, "scale") {
            Ok(n) => n,
            Err(e) => {
                return Err(e);
            },
        };
        Ok(MaskPosition { point, x_shift, y_shift, scale })
    }

    /// Decodes JSON text into this record.
    pub fn from_json(s: &str) -> (r: Result<Self, DecodeError>)
        ensures
            match json_of_text(s@) {
                Some(j) => res_view(r) == Self::spec_from_jv(j),
                None => res_view(r) == Err::<MaskPositionView, _>(DecodeErrView::InvalidJson),
            },
    {
        match parse_json(s) {
            Some(v) => Self::from_value(&v),
            None => Err(DecodeError::InvalidJson),
        }
    }

    /// Decoding the wire form of a record yields that record back.
    pub proof fn lemma_round_trip(m: MaskPositionView)
        ensures
            Self::spec_from_jv(Self::spec_to_jv(m)) == Ok::<_, DecodeErrView>(m),
    {
        reveal_strlit("@type");
        reveal_strlit("maskPosition");
        reveal_strlit("point");
        reveal_strlit("x_shift");
        reveal_strlit("y_shift");
        reveal_strlit("scale");
        let fs = Self::spec_to_jv(m)->Obj_0;
        assert(("@type"@).len() == 5);
        assert(("point"@).len() == 5);
        assert(("x_shift"@).len() == 7);
        assert(("y_shift"@).len() == 7);
        assert(("scale"@).len() == 5);
        assert(("@type"@)[0] == '@' && ("point"@)[0] == 'p' && ("scale"@)[0] == 's');
        assert(("x_shift"@)[0] == 'x' && ("y_shift"@)[0] == 'y');
        let f1 = fs.drop_first();
        let f2 = f1.drop_first();
        let f3 = f2.drop_first();
        let f4 = f3.drop_first();
        assert(f1 =~= fs.subrange(1, 5));
        assert(f2 =~= fs.subrange(2, 5));
        assert(f3 =~= fs.subrange(3, 5));
        assert(f4 =~= fs.subrange(4, 5));
        assert(jlookup(fs, "@type"@) == Some(JsonView::Str("maskPosition"@)));
        lemma_jlookup_step(fs, "point"@);
        assert(jlookup(fs, "point"@) == Some(JsonView::Str(m.point)));
        lemma_jlookup_step(fs, "x_shift"@);
        lemma_jlookup_step(f1, "x_shift"@);
        assert(jlookup(fs, "x_shift"@) == Some(JsonView::Int(m.x_shift)));
        lemma_jlookup_step(fs, "y_shift"@);
        lemma_jlookup_step(f1, "y_shift"@);
        lemma_jlookup_step(f2, "y_shift"@);
        assert(jlookup(fs, "y_shift"@) == Some(JsonView::Int(m.y_shift)));
        lemma_jlookup_step(fs, "scale"@);
        lemma_jlookup_step(f1, "scale"@);
        lemma_jlookup_step(f2, "scale"@);
        lemma_jlookup_step(f3, "scale"@);
        assert(jlookup(fs, "scale"@) == Some(JsonView::Int(m.scale)));
    }

    /// The wire form's discriminator is the record's declared tag.
    pub proof fn lemma_tag_fidelity(m: MaskPositionView)
        ensures
            spec_tag(Self::spec_to_jv(m)) == Some("maskPosition"@),
    {
        let fs = Self::spec_to_jv(m)->Obj_0;
        assert(jlookup(fs, "@type"@) == Some(JsonView::Str("maskPosition"@)));
    }
}

} // verus!
