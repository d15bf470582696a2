//! A file to send: a union of ways to point at the file's content. The
//! active variant's tag travels under the discriminator key `@type`.

use vstd::prelude::*;

use crate::errors::DecodeErrView;
use crate::errors::DecodeError;
use crate::errors::EncodeError;
use crate::errors::res_view;
use crate::json::JsonValue;
use crate::json::JsonView;
use crate::json::get_i64;
use crate::json::get_str;
use crate::json::jlookup;
use crate::json::json_view_fields;
use crate::json::lemma_jlookup_step;
use crate::json::lemma_json_view_fields;
use crate::json::spec_get_i64;
use crate::json::spec_get_str;
use crate::json::spec_tag;
use crate::json::str_eq;
use crate::json::str_to_string;
use crate::json::tag_of;
use crate::robject::RObject;
use crate::wire::json_of_text;
use crate::wire::parse_json;
use crate::wire::render_json;
use crate::wire::text_of_json;

verus! {

/// Points to a file to be sent.
#[derive(Debug, PartialEq)]
pub enum InputFile {
    /// Sentinel for a not-yet-chosen variant; never a valid wire value.
    _Default(()),
    /// A file already known to the platform, by identifier.
    Id {
        /// The file identifier.
        id: i64,
    },
    /// A file on the local file system, by path.
    Local {
        /// The path to the file.
        path: String,
    },
}

/// Mathematical model of an [`InputFile`].
pub enum InputFileView {
    _Default,
    Id { id: i64 },
    Local { path: Seq<char> },
}

impl DeepView for InputFile {
    type V = InputFileView;

    closed spec fn deep_view(&self) -> InputFileView {
        match self {
            InputFile::_Default(_) => InputFileView::_Default,
            InputFile::Id { id } => InputFileView::Id { id: *id },
            InputFile::Local { path } => InputFileView::Local { path: path@ },
        }
    }
}

impl Clone for InputFile {
    /// The copy carries the same model.
    fn clone(&self) -> (r: Self)
        ensures
            r.deep_view() == self.deep_view(),
    {
        match self {
            InputFile::_Default(_) => InputFile::_Default(()),
            InputFile::Id { id } => InputFile::Id { id: *id },
            InputFile::Local { path } => InputFile::Local { path: path.clone() },
        }
    }
}

impl Default for InputFile {
    /// The sentinel default variant.
    fn default() -> (r: Self)
        ensures
            r.deep_view() == InputFileView::_Default,
    {
        InputFile::_Default(())
    }
}

impl RObject for InputFile {
    open spec fn wire_tag(&self) -> Seq<char> {
        InputFile::spec_variant_tag(self.deep_view())
    }

    fn td_name(&self) -> (r: &'static str) {
        match self {
            InputFile::Id { .. } => "inputFileId",
            InputFile::Local { .. } => "inputFileLocal",
            InputFile::_Default(_) => "-1",
        }
    }
}

impl InputFile {
    /// A union value is well formed when a concrete variant is active.
    pub open spec fn wf(m: InputFileView) -> bool {
        !(m is _Default)
    }

    /// The declared tag of the active variant; the sentinel answers the
    /// internal placeholder, which is never emitted.
    pub open spec fn spec_variant_tag(m: InputFileView) -> Seq<char> {
        match m {
            InputFileView::Id { .. } => "inputFileId"@,
            InputFileView::Local { .. } => "inputFileLocal"@,
            InputFileView::_Default => "-1"@,
        }
    }

    /// The wire form of a union model; meaningful only for well-formed
    /// models, since the sentinel has no wire form.
    pub open spec fn spec_to_jv(m: InputFileView) -> JsonView {
        match m {
            InputFileView::Id { id } => JsonView::Obj(
                seq![
                    ("@type"@, JsonView::Str("inputFileId"@)),
                    ("id"@, JsonView::Int(id)),
                ],
            ),
            InputFileView::Local { path } => JsonView::Obj(
                seq![
                    ("@type"@, JsonView::Str("inputFileLocal"@)),
                    ("path"@, JsonView::Str(path)),
                ],
            ),
            InputFileView::_Default => JsonView::Null,
        }
    }

    /// What decoding a tree into this union yields: the tag picks the
    /// variant, then that variant's fields are read.
    pub open spec fn spec_from_jv(j: JsonView) -> Result<InputFileView, DecodeErrView> {
        match spec_tag(j) {
            Option::None => Err(DecodeErrView::UnknownOrMissingTag),
            Option::Some(t) => if t == "inputFileId"@ {
                match spec_get_i64(j->Obj_0, "id"@) {
                    Ok(id) => Ok(InputFileView::Id { id }),
                    Err(e) => Err(e),
                }
            } else if t == "inputFileLocal"@ {
                match spec_get_str(j->Obj_0, "path"@) {
                    Ok(path) => Ok(InputFileView::Local { path }),
                    Err(e) => Err(e),
                }
            } else {
                Err(DecodeErrView::UnknownOrMissingTag)
            },
        }
    }

    /// Encodes this union as a tree; the sentinel has no tag and is refused.
    pub fn to_value(&self) -> (r: Result<JsonValue, EncodeError>)
        ensures
            Self::wf(self.deep_view()) ==> (r matches Ok(v) && v.deep_view() == Self::spec_to_jv(
                self.deep_view(),
            )),
            !Self::wf(self.deep_view()) ==> r == Err::<JsonValue, EncodeError>(
                EncodeError::UndefinedVariant,
            ),
    {
        match self {
            InputFile::_Default(_) => Err(EncodeError::UndefinedVariant),
            InputFile::Id { id } => {
                let mut fields: Vec<(String, JsonValue)> = Vec::new();
                fields.push((str_to_string("@type"), JsonValue::Str(str_to_string("inputFileId"))));
                fields.push((str_to_string("id"), JsonValue::Int(*id)));
                proof {
                    lemma_json_view_fields(fields@);
                    assert(fields@.len() == 2);
                    assert(fields@[0].0@ == "@type"@);
                    assert(fields@[1].0@ == "id"@);
                    assert(json_view_fields(fields@) =~= Self::spec_to_jv(
                        self.deep_view(),
                    )->Obj_0);
                }
                Ok(JsonValue::Obj(fields))
            },
            InputFile::Local { path } => {
                let mut fields: Vec<(String, JsonValue)> = Vec::new();
                fields.push(
                    (str_to_string("@type"), JsonValue::Str(str_to_string("inputFileLocal"))),
                );
                fields.push((str_to_string("path"), JsonValue::Str(path.clone())));
                proof {
                    lemma_json_view_fields(fields@);
                    assert(fields@.len() == 2);
                    assert(fields@[0].0@ == "@type"@);
                    assert(fields@[1].0@ == "path"@);
                    assert(json_view_fields(fields@) =~= Self::spec_to_jv(
                        self.deep_view(),
                    )->Obj_0);
                }
                Ok(JsonValue::Obj(fields))
            },
        }
    }

    /// Prints this union as JSON text; the sentinel is refused.
    pub fn to_json(&self) -> (r: Result<String, EncodeError>)
        ensures
            Self::wf(self.deep_view()) ==> (r matches Ok(s) && s@ == text_of_json(
                Self::spec_to_jv(self.deep_view()),
            )),
            !Self::wf(self.deep_view()) ==> r == Err::<String, EncodeError>(
                EncodeError::UndefinedVariant,
            ),
    {
        match self.to_value() {
            Ok(v) => Ok(render_json(&v)),
            Err(e) => Err(e),
        }
    }

    /// Decodes a tree into this union; all-or-nothing.
    pub fn from_value(v: &JsonValue) -> (r: Result<Self, DecodeError>)
        ensures
            res_view(r) == Self::spec_from_jv(v.deep_view()),
    {
        let fields = match v {
            JsonValue::Obj(fields) => fields,
            _ => {
                return Err(DecodeError::UnknownOrMissingTag);
            },
        };
        let tag = match tag_of(fields) {
            Some(t) => t,
            None => {
                return Err(DecodeError::UnknownOrMissingTag);
            },
        };
        if str_eq(tag, "inputFileId") {
            match get_i64(fields, "id") {
                Ok(id) => Ok(InputFile::Id { id }),
                Err(e) => Err(e),
            }
        } else if str_eq(tag, "inputFileLocal") {
            match get_str(fields, "path") {
                Ok(path) => Ok(InputFile::Local { path }),
                Err(e) => Err(e),
            }
        } else {
            Err(DecodeError::UnknownOrMissingTag)
        }
    }

    /// Decodes JSON text into this union.
    pub fn from_json(s: &str) -> (r: Result<Self, DecodeError>)
        ensures
            match json_of_text(s@) {
                Some(j) => res_view(r) == Self::spec_from_jv(j),
                None => res_view(r) == Err::<InputFileView, _>(DecodeErrView::InvalidJson),
            },
    {
        match parse_json(s) {
            Some(v) => Self::from_value(&v),
            None => Err(DecodeError::InvalidJson),
        }
    }

    /// Decoding never yields the sentinel: every decoded value carries a
    /// concrete variant.
    pub proof fn lemma_decode_concrete(j: JsonView)
        ensures
            Self::spec_from_jv(j) is Ok ==> Self::wf(Self::spec_from_jv(j)->Ok_0),
    {
    }

    /// Decoding the wire form of a concrete variant yields it back.
    pub proof fn lemma_round_trip(m: InputFileView)
        requires
            Self::wf(m),
        ensures
            Self::spec_from_jv(Self::spec_to_jv(m)) == Ok::<_, DecodeErrView>(m),
    {
        reveal_strlit("@type");
        reveal_strlit("inputFileId");
        reveal_strlit("inputFileLocal");
        reveal_strlit("id");
        reveal_strlit("path");
        let fs = Self::spec_to_jv(m)->Obj_0;
        assert(("@type"@).len() == 5);
        assert(("inputFileId"@).len() == 11);
        assert(("inputFileLocal"@).len() == 14);
        assert(("id"@).len() == 2);
        assert(("path"@).len() == 4);
        match m {
            InputFileView::Id { id } => {
                assert(jlookup(fs, "@type"@) == Some(JsonView::Str("inputFileId"@)));
                lemma_jlookup_step(fs, "id"@);
                assert(fs.drop_first() =~= seq![("id"@, JsonView::Int(id))]);
                assert(jlookup(fs, "id"@) == Some(JsonView::Int(id)));
            },
            InputFileView::Local { path } => {
                assert(jlookup(fs, "@type"@) == Some(JsonView::Str("inputFileLocal"@)));
                lemma_jlookup_step(fs, "path"@);
                assert(fs.drop_first() =~= seq![("path"@, JsonView::Str(path))]);
                assert(jlookup(fs, "path"@) == Some(JsonView::Str(path)));
            },
            InputFileView::_Default => {},
        }
    }

    /// The wire form's discriminator is the active variant's declared tag.
    pub proof fn lemma_tag_fidelity(m: InputFileView)
        requires
            Self::wf(m),
        ensures
            spec_tag(Self::spec_to_jv(m)) == Some(Self::spec_variant_tag(m)),
    {
        let fs = Self::spec_to_jv(m)->Obj_0;
        match m {
            InputFileView::Id { id } => {
                assert(jlookup(fs, "@type"@) == Some(JsonView::Str("inputFileId"@)));
            },
            InputFileView::Local { path } => {
                assert(jlookup(fs, "@type"@) == Some(JsonView::Str("inputFileLocal"@)));
            },
            InputFileView::_Default => {},
        }
    }

    /// A tree whose tag names no variant of this union is rejected with
    /// `UnknownOrMissingTag`; so is one carrying no tag at all.
    pub proof fn lemma_unknown_tag(j: JsonView)
        requires
            match spec_tag(j) {
                Option::Some(t) => t != "inputFileId"@ && t != "inputFileLocal"@,
                Option::None => true,
            },
        ensures
            Self::spec_from_jv(j) == Err::<InputFileView, _>(DecodeErrView::UnknownOrMissingTag),
    {
    }
}

} // verus!
