//! The status of a user in a chat: a union of memberships. The active
//! variant's tag travels under the discriminator key `@type`.

use vstd::prelude::*;

use crate::errors::DecodeErrView;
use crate::errors::DecodeError;
use crate::errors::EncodeError;
use crate::errors::res_view;
use crate::json::JsonValue;
use crate::json::JsonView;
use crate::json::get_str;
use crate::json::jlookup;
use crate::json::json_view_fields;
use crate::json::lemma_jlookup_step;
use crate::json::lemma_json_view_fields;
use crate::json::spec_get_str;
use crate::json::spec_tag;
use crate::json::str_eq;
use crate::json::str_to_string;
use crate::json::tag_of;
use crate::robject::RObject;
use crate::wire::json_of_text;
use crate::wire::parse_json;
use crate::wire::render_json;
use crate::wire::text_of_json;

verus! {

/// The status of a user in a chat.
#[derive(Debug, PartialEq)]
pub enum ChatMemberStatus {
    /// Sentinel for a not-yet-chosen variant; never a valid wire value.
    _Default(()),
    /// An ordinary member.
    Member,
    /// An administrator.
    Administrator {
        /// A custom title shown instead of the default one.
        custom_title: String,
    },
    /// A user who left the chat.
    Left,
}

/// Mathematical model of a [`ChatMemberStatus`].
pub enum ChatMemberStatusView {
    _Default,
    Member,
    Administrator { custom_title: Seq<char> },
    Left,
}

impl DeepView for ChatMemberStatus {
    type V = ChatMemberStatusView;

    closed spec fn deep_view(&self) -> ChatMemberStatusView {
        match self {
            ChatMemberStatus::_Default(_) => ChatMemberStatusView::_Default,
            ChatMemberStatus::Member => ChatMemberStatusView::Member,
            ChatMemberStatus::Administrator { custom_title } => ChatMemberStatusView::Administrator {
                custom_title: custom_title@,
            },
            ChatMemberStatus::Left => ChatMemberStatusView::Left,
        }
    }
}

impl Clone for ChatMemberStatus {
    /// The copy carries the same model.
    fn clone(&self) -> (r: Self)
        ensures
            r.deep_view() == self.deep_view(),
    {
        match self {
            ChatMemberStatus::_Default(_) => ChatMemberStatus::_Default(()),
            ChatMemberStatus::Member => ChatMemberStatus::Member,
            ChatMemberStatus::Administrator { custom_title } => ChatMemberStatus::Administrator {
                custom_title: custom_title.clone(),
            },
            ChatMemberStatus::Left => ChatMemberStatus::Left,
        }
    }
}

impl Default for ChatMemberStatus {
    /// The sentinel default variant.
    fn default() -> (r: Self)
        ensures
            r.deep_view() == ChatMemberStatusView::_Default,
    {
        ChatMemberStatus::_Default(())
    }
}

impl RObject for ChatMemberStatus {
    open spec fn wire_tag(&self) -> Seq<char> {
        ChatMemberStatus::spec_variant_tag(self.deep_view())
    }

    fn td_name(&self) -> (r: &'static str) {
        match self {
            ChatMemberStatus::Member => "chatMemberStatusMember",
            ChatMemberStatus::Administrator { .. } => "chatMemberStatusAdministrator",
            ChatMemberStatus::Left => "chatMemberStatusLeft",
            ChatMemberStatus::_Default(_) => "-1",
        }
    }
}

impl ChatMemberStatus {
    /// A union value is well formed when a concrete variant is active.
    pub open spec fn wf(m: ChatMemberStatusView) -> bool {
        !(m is _Default)
    }

    /// The declared tag of the active variant; the sentinel answers the
    /// internal placeholder, which is never emitted.
    pub open spec fn spec_variant_tag(m: ChatMemberStatusView) -> Seq<char> {
        match m {
            ChatMemberStatusView::Member => "chatMemberStatusMember"@,
            ChatMemberStatusView::Administrator { .. } => "chatMemberStatusAdministrator"@,
            ChatMemberStatusView::Left => "chatMemberStatusLeft"@,
            ChatMemberStatusView::_Default => "-1"@,
        }
    }

    /// The wire form of a union model; meaningful only for well-formed
    /// models, since the sentinel has no wire form.
    pub open spec fn spec_to_jv(m: ChatMemberStatusView) -> JsonView {
        match m {
            ChatMemberStatusView::Member => JsonView::Obj(
                seq![("@type"@, JsonView::Str("chatMemberStatusMember"@))],
            ),
            ChatMemberStatusView::Administrator { custom_title } => JsonView::Obj(
                seq![
                    ("@type"@, JsonView::Str("chatMemberStatusAdministrator"@)),
                    ("custom_title"@, JsonView::Str(custom_title)),
                ],
            ),
            ChatMemberStatusView::Left => JsonView::Obj(
                seq![("@type"@, JsonView::Str("chatMemberStatusLeft"@))],
            ),
            ChatMemberStatusView::_Default => JsonView::Null,
        }
    }

    /// What decoding a tree into this union yields: the tag picks the
    /// variant, then that variant's fields are read.
    pub open spec fn spec_from_jv(j: JsonView) -> Result<ChatMemberStatusView, DecodeErrView> {
        match spec_tag(j) {
            Option::None => Err(DecodeErrView::UnknownOrMissingTag),
            Option::Some(t) => if t == "chatMemberStatusMember"@ {
                Ok(ChatMemberStatusView::Member)
            } else if t == "chatMemberStatusAdministrator"@ {
                match spec_get_str(j->Obj_0, "custom_title"@) {
                    Ok(custom_title) => Ok(ChatMemberStatusView::Administrator { custom_title }),
                    Err(e) => Err(e),
                }
            } else if t == "chatMemberStatusLeft"@ {
                Ok(ChatMemberStatusView::Left)
            } else {
                Err(DecodeErrView::UnknownOrMissingTag)
            },
        }
    }

    /// Encodes this union as a tree; the sentinel has no tag and is refused.
    pub fn to_value(&self) -> (r: Result<JsonValue, EncodeError>)
        ensures
            Self::wf(self.deep_view()) ==> (r matches Ok(v) && v.deep_view() == Self::spec_to_jv(
                self.deep_view(),
            )),
            !Self::wf(self.deep_view()) ==> r == Err::<JsonValue, EncodeError>(
                EncodeError::UndefinedVariant,
            ),
    {
        match self {
            ChatMemberStatus::_Default(_) => Err(EncodeError::UndefinedVariant),
            ChatMemberStatus::Member => {
                let mut fields: Vec<(String, JsonValue)> = Vec::new();
                fields.push(
                    (
                        str_to_string("@type"),
                        JsonValue::Str(str_to_string("chatMemberStatusMember")),
                    ),
                );
                proof {
                    lemma_json_view_fields(fields@);
                    assert(fields@.len() == 1);
                    assert(fields@[0].0@ == "@type"@);
                    assert(json_view_fields(fields@) =~= Self::spec_to_jv(
                        self.deep_view(),
                    )->Obj_0);
                }
                Ok(JsonValue::Obj(fields))
            },
            ChatMemberStatus::Administrator { custom_title } => {
                let mut fields: Vec<(String, JsonValue)> = Vec::new();
                fields.push(
                    (
                        str_to_string("@type"),
                        JsonValue::Str(str_to_string("chatMemberStatusAdministrator")),
                    ),
                );
                fields.push((str_to_string("custom_title"), JsonValue::Str(custom_title.clone())));
                proof {
                    lemma_json_view_fields(fields@);
                    assert(fields@.len() == 2);
                    assert(fields@[0].0@ == "@type"@);
                    assert(fields@[1].0@ == "custom_title"@);
                    assert(json_view_fields(fields@) =~= Self::spec_to_jv(
                        self.deep_view(),
                    )->Obj_0);
                }
                Ok(JsonValue::Obj(fields))
            },
            ChatMemberStatus::Left => {
                let mut fields: Vec<(String, JsonValue)> = Vec::new();
                fields.push(
                    (str_to_string("@type"), JsonValue::Str(str_to_string("chatMemberStatusLeft"))),
                );
                proof {
                    lemma_json_view_fields(fields@);
                    assert(fields@.len() == 1);
                    assert(fields@[0].0@ == "@type"@);
                    assert(json_view_fields(fields@) =~= Self::spec_to_jv(
                        self.deep_view(),
                    )->Obj_0);
                }
                Ok(JsonValue::Obj(fields))
            },
        }
    }

    /// Prints this union as JSON text; the sentinel is refused.
    pub fn to_json(&self) -> (r: Result<String, EncodeError>)
        ensures
            Self::wf(self.deep_view()) ==> (r matches Ok(s) && s@ == text_of_json(
                Self::spec_to_jv(self.deep_view()),
            )),
            !Self::wf(self.deep_view()) ==> r == Err::<String, EncodeError>(
                EncodeError::UndefinedVariant,
            ),
    {
        match self.to_value() {
            Ok(v) => Ok(render_json(&v)),
            Err(e) => Err(e),
        }
    }

    /// Decodes a tree into this union; all-or-nothing.
    pub fn from_value(v: &JsonValue) -> (r: Result<Self, DecodeError>)
        ensures
            res_view(r) == Self::spec_from_jv(v.deep_view()),
    {
        let fields = match v {
            JsonValue::Obj(fields) => fields,
            _ => {
                return Err(DecodeError::UnknownOrMissingTag);
            },
        };
        let tag = match tag_of(fields) {
            Some(t) => t,
            None => {
                return Err(DecodeError::UnknownOrMissingTag);
            },
        };
        if str_eq(tag, "chatMemberStatusMember") {
            Ok(ChatMemberStatus::Member)
        } else if str_eq(tag, "chatMemberStatusAdministrator") {
            match get_str(fields, "custom_title") {
                Ok(custom_title) => Ok(ChatMemberStatus::Administrator { custom_title }),
                Err(e) => Err(e),
            }
        } else if str_eq(tag, "chatMemberStatusLeft") {
            Ok(ChatMemberStatus::Left)
        } else {
            Err(DecodeError::UnknownOrMissingTag)
        }
    }

    /// Decodes JSON text into this union.
    pub fn from_json(s: &str) -> (r: Result<Self, DecodeError>)
        ensures
            match json_of_text(s@) {
                Some(j) => res_view(r) == Self::spec_from_jv(j),
                None => res_view(r) == Err::<ChatMemberStatusView, _>(DecodeErrView::InvalidJson),
            },
    {
        match parse_json(s) {
            Some(v) => Self::from_value(&v),
            None => Err(DecodeError::InvalidJson),
        }
    }

    /// Decoding never yields the sentinel: every decoded value carries a
    /// concrete variant.
    pub proof fn lemma_decode_concrete(j: JsonView)
        ensures
            Self::spec_from_jv(j) is Ok ==> Self::wf(Self::spec_from_jv(j)->Ok_0),
    {
    }

    /// Decoding the wire form of a concrete variant yields it back.
    pub proof fn lemma_round_trip(m: ChatMemberStatusView)
        requires
            Self::wf(m),
        ensures
            Self::spec_from_jv(Self::spec_to_jv(m)) == Ok::<_, DecodeErrView>(m),
    {
        reveal_strlit("@type");
        reveal_strlit("chatMemberStatusMember");
        reveal_strlit("chatMemberStatusAdministrator");
        reveal_strlit("chatMemberStatusLeft");
        reveal_strlit("custom_title");
        let fs = Self::spec_to_jv(m)->Obj_0;
        assert(("@type"@).len() == 5);
        assert(("chatMemberStatusMember"@).len() == 22);
        assert(("chatMemberStatusAdministrator"@).len() == 29);
        assert(("chatMemberStatusLeft"@).len() == 20);
        assert(("custom_title"@).len() == 12);
        match m {
            ChatMemberStatusView::Member => {
                assert(jlookup(fs, "@type"@) == Some(JsonView::Str("chatMemberStatusMember"@)));
            },
            ChatMemberStatusView::Administrator { custom_title } => {
                assert(jlookup(fs, "@type"@) == Some(
                    JsonView::Str("chatMemberStatusAdministrator"@),
                ));
                lemma_jlookup_step(fs, "custom_title"@);
                assert(fs.drop_first() =~= seq![("custom_title"@, JsonView::Str(custom_title))]);
                assert(jlookup(fs, "custom_title"@) == Some(JsonView::Str(custom_title)));
            },
            ChatMemberStatusView::Left => {
                assert(jlookup(fs, "@type"@) == Some(JsonView::Str("chatMemberStatusLeft"@)));
            },
            ChatMemberStatusView::_Default => {},
        }
    }

    /// The wire form's discriminator is the active variant's declared tag.
    pub proof fn lemma_tag_fidelity(m: ChatMemberStatusView)
        requires
            Self::wf(m),
        ensures
            spec_tag(Self::spec_to_jv(m)) == Some(Self::spec_variant_tag(m)),
    {
        let fs = Self::spec_to_jv(m)->Obj_0;
        assert(fs.len() >= 1 && fs[0].0 == "@type"@);
    }

    /// A tree whose tag names no variant of this union is rejected with
    /// `UnknownOrMissingTag`; so is one carrying no tag at all.
    pub proof fn lemma_unknown_tag(j: JsonView)
        requires
            match spec_tag(j) {
                Option::Some(t) => t != "chatMemberStatusMember"@ && t
                    != "chatMemberStatusAdministrator"@ && t != "chatMemberStatusLeft"@,
                Option::None => true,
            },
        ensures
            Self::spec_from_jv(j) == Err::<ChatMemberStatusView, _>(
                DecodeErrView::UnknownOrMissingTag,
            ),
    {
    }
}

} // verus!
