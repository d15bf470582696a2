//! Describes the type of a call server: a union of a call reflector and a
//! WebRTC server. The active variant's tag travels under the discriminator
//! key `@type`.

use vstd::prelude::*;

use crate::errors::DecodeErrView;
use crate::errors::DecodeError;
use crate::errors::EncodeError;
use crate::errors::res_view;
use crate::json::JsonValue;
use crate::json::JsonView;
use crate::json::get_bool;
use crate::json::get_str;
use crate::json::jlookup;
use crate::json::json_view_fields;
use crate::json::lemma_jlookup_step;
use crate::json::lemma_json_view_fields;
use crate::json::spec_get_bool;
use crate::json::spec_get_str;
use crate::json::spec_tag;
use crate::json::str_eq;
use crate::json::str_to_string;
use crate::json::tag_of;
use crate::robject::RObject;
use crate::wire::json_of_text;
use crate::wire::parse_json;
use crate::wire::render_json;
use crate::wire::text_of_json;

verus! {

/// Marker for the variants of [`CallServerType`].
pub trait TDCallServerType: RObject {

}

/// Describes the type of a call server.
#[derive(Debug, PartialEq)]
pub enum CallServerType {
    /// Sentinel for a not-yet-chosen variant; never a valid wire value.
    _Default(()),
    /// A call reflector.
    TelegramReflector(CallServerTypeTelegramReflector),
    /// A WebRTC server.
    Webrtc(CallServerTypeWebrtc),
}

/// Mathematical model of a [`CallServerType`].
pub enum CallServerTypeView {
    _Default,
    TelegramReflector(CallServerTypeTelegramReflectorView),
    Webrtc(CallServerTypeWebrtcView),
}

/// A call reflector.
#[derive(Debug, PartialEq)]
pub struct CallServerTypeTelegramReflector {
    /// A peer tag to be used with the reflector.
    peer_tag: String,
}

/// Mathematical model of a [`CallServerTypeTelegramReflector`].
pub struct CallServerTypeTelegramReflectorView {
    pub peer_tag: Seq<char>,
}

/// A WebRTC server.
#[derive(Debug, PartialEq)]
pub struct CallServerTypeWebrtc {
    /// Username to be used for authentication.
    username: String,
    /// Authentication password.
    password: String,
    /// True, if the server supports TURN.
    supports_turn: bool,
    /// True, if the server supports STUN.
    supports_stun: bool,
}

/// Mathematical model of a [`CallServerTypeWebrtc`].
pub struct CallServerTypeWebrtcView {
    pub username: Seq<char>,
    pub password: Seq<char>,
    pub supports_turn: bool,
    pub supports_stun: bool,
}

impl DeepView for CallServerType {
    type V = CallServerTypeView;

    closed spec fn deep_view(&self) -> CallServerTypeView {
        match self {
            CallServerType::_Default(_) => CallServerTypeView::_Default,
            CallServerType::TelegramReflector(t) => CallServerTypeView::TelegramReflector(
                t.deep_view(),
            ),
            CallServerType::Webrtc(t) => CallServerTypeView::Webrtc(t.deep_view()),
        }
    }
}

impl DeepView for CallServerTypeTelegramReflector {
    type V = CallServerTypeTelegramReflectorView;

    closed spec fn deep_view(&self) -> CallServerTypeTelegramReflectorView {
        CallServerTypeTelegramReflectorView { peer_tag: self.peer_tag@ }
    }
}

impl DeepView for CallServerTypeWebrtc {
    type V = CallServerTypeWebrtcView;

    closed spec fn deep_view(&self) -> CallServerTypeWebrtcView {
        CallServerTypeWebrtcView {
            username: self.username@,
            password: self.password@,
            supports_turn: self.supports_turn,
            supports_stun: self.supports_stun,
        }
    }
}

impl Clone for CallServerType {
    /// The copy carries the same model.
    fn clone(&self) -> (r: Self)
        ensures
            r.deep_view() == self.deep_view(),
    {
        match self {
            CallServerType::_Default(_) => CallServerType::_Default(()),
            CallServerType::TelegramReflector(t) => CallServerType::TelegramReflector(t.clone()),
            CallServerType::Webrtc(t) => CallServerType::Webrtc(t.clone()),
        }
    }
}

impl Clone for CallServerTypeTelegramReflector {
    /// The copy carries the same model.
    fn clone(&self) -> (r: Self)
        ensures
            r.deep_view() == self.deep_view(),
    {
        CallServerTypeTelegramReflector { peer_tag: self.peer_tag.clone() }
    }
}

impl Clone for CallServerTypeWebrtc {
    /// The copy carries the same model.
    fn clone(&self) -> (r: Self)
        ensures
            r.deep_view() == self.deep_view(),
    {
        CallServerTypeWebrtc {
            username: self.username.clone(),
            password: self.password.clone(),
            supports_turn: self.supports_turn,
            supports_stun: self.supports_stun,
        }
    }
}

impl Default for CallServerType {
    /// The sentinel default variant.
    fn default() -> (r: Self)
        ensures
            r.deep_view() == CallServerTypeView::_Default,
    {
        CallServerType::_Default(())
    }
}

impl RObject for CallServerType {
    open spec fn wire_tag(&self) -> Seq<char> {
        CallServerType::spec_variant_tag(self.deep_view())
    }

    fn td_name(&self) -> (r: &'static str) {
        match self {
            CallServerType::TelegramReflector(t) => t.td_name(),
            CallServerType::Webrtc(t) => t.td_name(),
            CallServerType::_Default(_) => "-1",
        }
    }
}

impl RObject for CallServerTypeTelegramReflector {
    open spec fn wire_tag(&self) -> Seq<char> {
        "callServerTypeTelegramReflector"@
    }

    fn td_name(&self) -> (r: &'static str) {
        "callServerTypeTelegramReflector"
    }
}

impl RObject for CallServerTypeWebrtc {
    open spec fn wire_tag(&self) -> Seq<char> {
        "callServerTypeWebrtc"@
    }

    fn td_name(&self) -> (r: &'static str) {
        "callServerTypeWebrtc"
    }
}

impl TDCallServerType for CallServerTypeTelegramReflector {

}

impl TDCallServerType for CallServerTypeWebrtc {

}

impl CallServerType {
    /// A union value is well formed when a concrete variant is active.
    pub open spec fn wf(m: CallServerTypeView) -> bool {
        !(m is _Default)
    }

    /// The declared tag of the active variant; the sentinel answers the
    /// internal placeholder, which is never emitted.
    pub open spec fn spec_variant_tag(m: CallServerTypeView) -> Seq<char> {
        match m {
            CallServerTypeView::TelegramReflector(_) => "callServerTypeTelegramReflector"@,
            CallServerTypeView::Webrtc(_) => "callServerTypeWebrtc"@,
            CallServerTypeView::_Default => "-1"@,
        }
    }

    /// The wire form of a union model; meaningful only for well-formed
    /// models, since the sentinel has no wire form.
    pub open spec fn spec_to_jv(m: CallServerTypeView) -> JsonView {
        match m {
            CallServerTypeView::TelegramReflector(t) => CallServerTypeTelegramReflector::spec_to_jv(
                t,
            ),
            CallServerTypeView::Webrtc(t) => CallServerTypeWebrtc::spec_to_jv(t),
            CallServerTypeView::_Default => JsonView::Null,
        }
    }

    /// What decoding a tree into this union yields: the tag picks the
    /// variant, then that variant's record is decoded.
    pub open spec fn spec_from_jv(j: JsonView) -> Result<CallServerTypeView, DecodeErrView> {
        match spec_tag(j) {
            Option::None => Err(DecodeErrView::UnknownOrMissingTag),
            Option::Some(t) => if t == "callServerTypeTelegramReflector"@ {
                match CallServerTypeTelegramReflector::spec_from_jv(j) {
                    Ok(q) => Ok(CallServerTypeView::TelegramReflector(q)),
                    Err(e) => Err(e),
                }
            } else if t == "callServerTypeWebrtc"@ {
                match CallServerTypeWebrtc::spec_from_jv(j) {
                    Ok(q) => Ok(CallServerTypeView::Webrtc(q)),
                    Err(e) => Err(e),
                }
            } else {
                Err(DecodeErrView::UnknownOrMissingTag)
            },
        }
    }

    /// Decodes JSON text into this union.
    pub fn from_json(s: &str) -> (r: Result<Self, DecodeError>)
        ensures
            match json_of_text(s@) {
                Some(j) => res_view(r) == Self::spec_from_jv(j),
                None => res_view(r) == Err::<CallServerTypeView, _>(DecodeErrView::InvalidJson),
            },
    {
        match parse_json(s) {
            Some(v) => Self::from_value(&v),
            None => Err(DecodeError::InvalidJson),
        }
    }

    /// Decodes a tree into this union; all-or-nothing.
    pub fn from_value(v: &JsonValue) -> (r: Result<Self, DecodeError>)
        ensures
            res_view(r) == Self::spec_from_jv(v.deep_view()),
    {
        let fields = match v {
            JsonValue::Obj(fields) => fields,
            _ => {
                return Err(DecodeError::UnknownOrMissingTag);
            },
        };
        let tag = match tag_of(fields) {
            Some(t) => t,
            None => {
                return Err(DecodeError::UnknownOrMissingTag);
            },
        };
        if str_eq(tag, "callServerTypeTelegramReflector") {
            match CallServerTypeTelegramReflector::from_value(v) {
                Ok(t) => Ok(CallServerType::TelegramReflector(t)),
                Err(e) => Err(e),
            }
        } else if str_eq(tag, "callServerTypeWebrtc") {
            match CallServerTypeWebrtc::from_value(v) {
                Ok(t) => Ok(CallServerType::Webrtc(t)),
                Err(e) => Err(e),
            }
        } else {
            Err(DecodeError::UnknownOrMissingTag)
        }
    }

    /// Encodes this union as a tree; the sentinel has no tag and is refused.
    pub fn to_value(&self) -> (r: Result<JsonValue, EncodeError>)
        ensures
            Self::wf(self.deep_view()) ==> (r matches Ok(v) && v.deep_view() == Self::spec_to_jv(
                self.deep_view(),
            )),
            !Self::wf(self.deep_view()) ==> r == Err::<JsonValue, EncodeError>(
                EncodeError::UndefinedVariant,
            ),
    {
        match self {
            CallServerType::_Default(_) => Err(EncodeError::UndefinedVariant),
            CallServerType::TelegramReflector(t) => t.to_value(),
            CallServerType::Webrtc(t) => t.to_value(),
        }
    }

    /// Prints this union as JSON text; the sentinel is refused.
    pub fn to_json(&self) -> (r: Result<String, EncodeError>)
        ensures
            Self::wf(self.deep_view()) ==> (r matches Ok(s) && s@ == text_of_json(
                Self::spec_to_jv(self.deep_view()),
            )),
            !Self::wf(self.deep_view()) ==> r == Err::<String, EncodeError>(
                EncodeError::UndefinedVariant,
            ),
    {
        match self.to_value() {
            Ok(v) => Ok(render_json(&v)),
            Err(e) => Err(e),
        }
    }

    /// Whether no concrete variant has been chosen yet.
    pub fn _is_default(&self) -> (r: bool)
        ensures
            r == (self.deep_view() is _Default),
    {
        if let CallServerType::_Default(_) = self {
            true
        } else {
            false
        }
    }

    /// Whether the active variant is the call reflector.
    pub fn is_telegram_reflector(&self) -> (r: bool)
        ensures
            r == (self.deep_view() is TelegramReflector),
    {
        if let CallServerType::TelegramReflector(_) = self {
            true
        } else {
            false
        }
    }

    /// Whether the active variant is the WebRTC server.
    pub fn is_webrtc(&self) -> (r: bool)
        ensures
            r == (self.deep_view() is Webrtc),
    {
        if let CallServerType::Webrtc(_) = self {
            true
        } else {
            false
        }
    }

    /// The reflector variant's record, when it is active.
    pub fn as_telegram_reflector(&self) -> (r: Option<&CallServerTypeTelegramReflector>)
        ensures
            match r {
                Some(t) => self.deep_view() == CallServerTypeView::TelegramReflector(
                    t.deep_view(),
                ),
                None => !(self.deep_view() is TelegramReflector),
            },
    {
        if let CallServerType::TelegramReflector(t) = self {
            return Some(t);
        }
        None
    }

    /// The WebRTC variant's record, when it is active.
    pub fn as_webrtc(&self) -> (r: Option<&CallServerTypeWebrtc>)
        ensures
            match r {
                Some(t) => self.deep_view() == CallServerTypeView::Webrtc(t.deep_view()),
                None => !(self.deep_view() is Webrtc),
            },
    {
        if let CallServerType::Webrtc(t) = self {
            return Some(t);
        }
        None
    }

    /// Calls `fnc` with the reflector record when that variant is active,
    /// and hands the union back either way.
    pub fn on_telegram_reflector<F: FnOnce(&CallServerTypeTelegramReflector)>(
        &self,
        fnc: F,
    ) -> (r: &Self)
        requires
            forall|t: &CallServerTypeTelegramReflector| #[trigger] fnc.requires((t,)),
        ensures
            r == self,
    {
        if let CallServerType::TelegramReflector(t) = self {
            fnc(t);
        }
        self
    }

    /// Calls `fnc` with the WebRTC record when that variant is active, and
    /// hands the union back either way.
    pub fn on_webrtc<F: FnOnce(&CallServerTypeWebrtc)>(&self, fnc: F) -> (r: &Self)
        requires
            forall|t: &CallServerTypeWebrtc| #[trigger] fnc.requires((t,)),
        ensures
            r == self,
    {
        if let CallServerType::Webrtc(t) = self {
            fnc(t);
        }
        self
    }

    /// Wraps a reflector record into the union.
    pub fn telegram_reflector(t: CallServerTypeTelegramReflector) -> (r: Self)
        ensures
            r.deep_view() == CallServerTypeView::TelegramReflector(t.deep_view()),
    {
        CallServerType::TelegramReflector(t)
    }

    /// Wraps a WebRTC record into the union.
    pub fn webrtc(t: CallServerTypeWebrtc) -> (r: Self)
        ensures
            r.deep_view() == CallServerTypeView::Webrtc(t.deep_view()),
    {
        CallServerType::Webrtc(t)
    }

    /// Decoding never yields the sentinel: every decoded value carries a
    /// concrete variant.
    pub proof fn lemma_decode_concrete(j: JsonView)
        ensures
            Self::spec_from_jv(j) is Ok ==> Self::wf(Self::spec_from_jv(j)->Ok_0),
    {
    }

    /// Decoding the wire form of a concrete variant yields it back.
    pub proof fn lemma_round_trip(m: CallServerTypeView)
        requires
            Self::wf(m),
        ensures
            Self::spec_from_jv(Self::spec_to_jv(m)) == Ok::<_, DecodeErrView>(m),
    {
        reveal_strlit("callServerTypeTelegramReflector");
        reveal_strlit("callServerTypeWebrtc");
        assert(("callServerTypeTelegramReflector"@).len() == 31);
        assert(("callServerTypeWebrtc"@).len() == 20);
        match m {
            CallServerTypeView::TelegramReflector(q) => {
                CallServerTypeTelegramReflector::lemma_tag_fidelity(q);
                CallServerTypeTelegramReflector::lemma_round_trip(q);
            },
            CallServerTypeView::Webrtc(q) => {
                CallServerTypeWebrtc::lemma_tag_fidelity(q);
                CallServerTypeWebrtc::lemma_round_trip(q);
            },
            CallServerTypeView::_Default => {},
        }
    }

    /// The wire form's discriminator is the active variant's declared tag.
    pub proof fn lemma_tag_fidelity(m: CallServerTypeView)
        requires
            Self::wf(m),
        ensures
            spec_tag(Self::spec_to_jv(m)) == Some(Self::spec_variant_tag(m)),
    {
        match m {
            CallServerTypeView::TelegramReflector(q) => {
                CallServerTypeTelegramReflector::lemma_tag_fidelity(q);
            },
            CallServerTypeView::Webrtc(q) => {
                CallServerTypeWebrtc::lemma_tag_fidelity(q);
            },
            CallServerTypeView::_Default => {},
        }
    }

    /// A tree whose tag names no variant of this union is rejected with
    /// `UnknownOrMissingTag`; so is one carrying no tag at all.
    pub proof fn lemma_unknown_tag(j: JsonView)
        requires
            match spec_tag(j) {
                Option::Some(t) => t != "callServerTypeTelegramReflector"@ && t
                    != "callServerTypeWebrtc"@,
                Option::None => true,
            },
        ensures
            Self::spec_from_jv(j) == Err::<CallServerTypeView, _>(
                DecodeErrView::UnknownOrMissingTag,
            ),
    {
    }

    /// A reflector-tagged object missing its required field is rejected
    /// with `MissingField` naming that field.
    pub proof fn lemma_missing_required_field(j: JsonView)
        requires
            spec_tag(j) == Some("callServerTypeTelegramReflector"@),
            jlookup(j->Obj_0, "peer_tag"@) is None,
        ensures
            Self::spec_from_jv(j) == Err::<CallServerTypeView, _>(
                DecodeErrView::MissingField("peer_tag"@),
            ),
    {
    }
}

impl CallServerTypeTelegramReflector {
    /// The wire form of a record model: the discriminator, then every field.
    pub open spec fn spec_to_jv(m: CallServerTypeTelegramReflectorView) -> JsonView {
        JsonView::Obj(
            seq![
                ("@type"@, JsonView::Str("callServerTypeTelegramReflector"@)),
                ("peer_tag"@, JsonView::Str(m.peer_tag)),
            ],
        )
    }

    /// What decoding a tree into this record yields.
    pub open spec fn spec_from_jv(j: JsonView) -> Result<
        CallServerTypeTelegramReflectorView,
        DecodeErrView,
    > {
        if spec_tag(j) != Some("callServerTypeTelegramReflector"@) {
            Err(DecodeErrView::UnknownOrMissingTag)
        } else {
            match spec_get_str(j->Obj_0, "peer_tag"@) {
                Err(e) => Err(e),
                Ok(peer_tag) => Ok(CallServerTypeTelegramReflectorView { peer_tag }),
            }
        }
    }

    /// Decodes JSON text into this record.
    pub fn from_json(s: &str) -> (r: Result<Self, DecodeError>)
        ensures
            match json_of_text(s@) {
                Some(j) => res_view(r) == Self::spec_from_jv(j),
                None => res_view(r) == Err::<CallServerTypeTelegramReflectorView, _>(
                    DecodeErrView::InvalidJson,
                ),
            },
    {
        match parse_json(s) {
            Some(v) => Self::from_value(&v),
            None => Err(DecodeError::InvalidJson),
        }
    }

    /// Decodes a tree into this record; all-or-nothing.
    pub fn from_value(v: &JsonValue) -> (r: Result<Self, DecodeError>)
        ensures
            res_view(r) == Self::spec_from_jv(v.deep_view()),
    {
        let fields = match v {
            JsonValue::Obj(fields) => fields,
            _ => {
                return Err(DecodeError::UnknownOrMissingTag);
            },
        };
        let tag_ok = match tag_of(fields) {
            Some(t) => str_eq(t, "callServerTypeTelegramReflector"),
            None => false,
        };
        if !tag_ok {
            return Err(DecodeError::UnknownOrMissingTag);
        }
        let peer_tag = match get_str(fields, "peer_tag") {
            Ok(s) => s,
            Err(e) => {
                return Err(e);
            },
        };
        Ok(CallServerTypeTelegramReflector { peer_tag })
    }

    /// Encodes this record as a tree.
    pub fn to_value(&self) -> (r: Result<JsonValue, EncodeError>)
        ensures
            r matches Ok(v) && v.deep_view() == Self::spec_to_jv(self.deep_view()),
    {
        let mut fields: Vec<(String, JsonValue)> = Vec::new();
        fields.push(
            (
                str_to_string("@type"),
                JsonValue::Str(str_to_string("callServerTypeTelegramReflector")),
            ),
        );
        fields.push((str_to_string("peer_tag"), JsonValue::Str(self.peer_tag.clone())));
        proof {
            lemma_json_view_fields(fields@);
            assert(fields@.len() == 2);
            assert(fields@[0].0@ == "@type"@);
            assert(fields@[1].0@ == "peer_tag"@);
            assert(json_view_fields(fields@) =~= Self::spec_to_jv(self.deep_view())->Obj_0);
        }
        Ok(JsonValue::Obj(fields))
    }

    /// Prints this record as JSON text.
    pub fn to_json(&self) -> (r: Result<String, EncodeError>)
        ensures
            r matches Ok(s) && s@ == text_of_json(Self::spec_to_jv(self.deep_view())),
    {
        match self.to_value() {
            Ok(v) => Ok(render_json(&v)),
            Err(e) => Err(e),
        }
    }

    /// A builder staging an all-default reflector record.
    pub fn builder() -> (r: RTDCallServerTypeTelegramReflectorBuilder)
        ensures
            r.deep_view() == (CallServerTypeTelegramReflectorView { peer_tag: Seq::empty() }),
    {
        RTDCallServerTypeTelegramReflectorBuilder {
            inner: CallServerTypeTelegramReflector { peer_tag: String::new() },
        }
    }

    /// The peer tag.
    pub fn peer_tag(&self) -> (r: &String)
        ensures
            r@ == self.deep_view().peer_tag,
    {
        &self.peer_tag
    }

    /// Decoding the wire form of a record yields that record back.
    pub proof fn lemma_round_trip(m: CallServerTypeTelegramReflectorView)
        ensures
            Self::spec_from_jv(Self::spec_to_jv(m)) == Ok::<_, DecodeErrView>(m),
    {
        reveal_strlit("@type");
        reveal_strlit("callServerTypeTelegramReflector");
        reveal_strlit("peer_tag");
        let fs = Self::spec_to_jv(m)->Obj_0;
        assert(("@type"@).len() == 5);
        assert(("peer_tag"@).len() == 8);
        assert(jlookup(fs, "@type"@) == Some(
            JsonView::Str("callServerTypeTelegramReflector"@),
        ));
        lemma_jlookup_step(fs, "peer_tag"@);
        assert(fs.drop_first() =~= seq![("peer_tag"@, JsonView::Str(m.peer_tag))]);
        assert(jlookup(fs, "peer_tag"@) == Some(JsonView::Str(m.peer_tag)));
    }

    /// The wire form's discriminator is the record's declared tag.
    pub proof fn lemma_tag_fidelity(m: CallServerTypeTelegramReflectorView)
        ensures
            spec_tag(Self::spec_to_jv(m)) == Some("callServerTypeTelegramReflector"@),
    {
        let fs = Self::spec_to_jv(m)->Obj_0;
        assert(fs.len() >= 1 && fs[0].0 == "@type"@);
    }
}

/// Staging area for a [`CallServerTypeTelegramReflector`] under
/// construction.
#[derive(Debug)]
pub struct RTDCallServerTypeTelegramReflectorBuilder {
    inner: CallServerTypeTelegramReflector,
}

impl DeepView for RTDCallServerTypeTelegramReflectorBuilder {
    type V = CallServerTypeTelegramReflectorView;

    closed spec fn deep_view(&self) -> CallServerTypeTelegramReflectorView {
        self.inner.deep_view()
    }
}

impl RTDCallServerTypeTelegramReflectorBuilder {
    /// Freezes the staged record into an immutable copy; the builder stays
    /// usable and later changes to it leave the copy untouched.
    pub fn build(&self) -> (r: CallServerTypeTelegramReflector)
        ensures
            r.deep_view() == self.deep_view(),
    {
        self.inner.clone()
    }

    /// Stages the peer tag, overwriting any earlier value.
    pub fn peer_tag(&mut self, peer_tag: &str)
        ensures
            final(self).deep_view() == (CallServerTypeTelegramReflectorView {
                peer_tag: peer_tag@,
            }),
    {
        self.inner.peer_tag = str_to_string(peer_tag);
    }
}

impl CallServerTypeWebrtc {
    /// The wire form of a record model: the discriminator, then every field.
    pub open spec fn spec_to_jv(m: CallServerTypeWebrtcView) -> JsonView {
        JsonView::Obj(
            seq![
                ("@type"@, JsonView::Str("callServerTypeWebrtc"@)),
                ("username"@, JsonView::Str(m.username)),
                ("password"@, JsonView::Str(m.password)),
                ("supports_turn"@, JsonView::Bool(m.supports_turn)),
                ("supports_stun"@, JsonView::Bool(m.supports_stun)),
            ],
        )
    }

    /// What decoding a tree into this record yields.
    pub open spec fn spec_from_jv(j: JsonView) -> Result<CallServerTypeWebrtcView, DecodeErrView> {
        if spec_tag(j) != Some("callServerTypeWebrtc"@) {
            Err(DecodeErrView::UnknownOrMissingTag)
        } else {
            match spec_get_str(j->Obj_0, "username"@) {
                Err(e) => Err(e),
                Ok(username) => match spec_get_str(j->Obj_0, "password"@) {
                    Err(e) => Err(e),
                    Ok(password) => match spec_get_bool(j->Obj_0, "supports_turn"@) {
                        Err(e) => Err(e),
                        Ok(supports_turn) => match spec_get_bool(j->Obj_0, "supports_stun"@) {
                            Err(e) => Err(e),
                            Ok(supports_stun) => Ok(
                                CallServerTypeWebrtcView {
                                    username,
                                    password,
                                    supports_turn,
                                    supports_stun,
                                },
                            ),
                        },
                    },
                },
            }
        }
    }

    /// Decodes JSON text into this record.
    pub fn from_json(s: &str) -> (r: Result<Self, DecodeError>)
        ensures
            match json_of_text(s@) {
                Some(j) => res_view(r) == Self::spec_from_jv(j),
                None => res_view(r) == Err::<CallServerTypeWebrtcView, _>(
                    DecodeErrView::InvalidJson,
                ),
            },
    {
        match parse_json(s) {
            Some(v) => Self::from_value(&v),
            None => Err(DecodeError::InvalidJson),
        }
    }

    /// Decodes a tree into this record; all-or-nothing.
    pub fn from_value(v: &JsonValue) -> (r: Result<Self, DecodeError>)
        ensures
            res_view(r) == Self::spec_from_jv(v.deep_view()),
    {
        let fields = match v {
            JsonValue::Obj(fields) => fields,
            _ => {
                return Err(DecodeError::UnknownOrMissingTag);
            },
        };
        let tag_ok = match tag_of(fields) {
            Some(t) => str_eq(t, "callServerTypeWebrtc"),
            None => false,
        };
        if !tag_ok {
            return Err(DecodeError::UnknownOrMissingTag);
        }
        let username = match get_str(fields, "username") {
            Ok(s) => s,
            Err(e) => {
                return Err(e);
            },
        };
        let password = match get_str(fields, "password") {
            Ok(s) => s,
            Err(e) => {
                return Err(e);
            },
        };
        let supports_turn = match get_bool(fields, "supports_turn") {
            Ok(b) => b,
            Err(e) => {
                return Err(e);
            },
        };
        let supports_stun = match get_bool(fields, "supports_stun") {
            Ok(b) => b,
            Err(e) => {
                return Err(e);
            },
        };
        Ok(CallServerTypeWebrtc { username, password, supports_turn, supports_stun })
    }

    /// Encodes this record as a tree.
    pub fn to_value(&self) -> (r: Result<JsonValue, EncodeError>)
        ensures
            r matches Ok(v) && v.deep_view() == Self::spec_to_jv(self.deep_view()),
    {
        let mut fields: Vec<(String, JsonValue)> = Vec::new();
        fields.push(
            (str_to_string("@type"), JsonValue::Str(str_to_string("callServerTypeWebrtc"))),
        );
        fields.push((str_to_string("username"), JsonValue::Str(self.username.clone())));
        fields.push((str_to_string("password"), JsonValue::Str(self.password.clone())));
        fields.push((str_to_string("supports_turn"), JsonValue::Bool(self.supports_turn)));
        fields.push((str_to_string("supports_stun"), JsonValue::Bool(self.supports_stun)));
        proof {
            lemma_json_view_fields(fields@);
            assert(fields@.len() == 5);
            assert(fields@[0].0@ == "@type"@);
            assert(fields@[1].0@ == "username"@);
            assert(fields@[2].0@ == "password"@);
            assert(fields@[3].0@ == "supports_turn"@);
            assert(fields@[4].0@ == "supports_stun"@);
            assert(json_view_fields(fields@) =~= Self::spec_to_jv(self.deep_view())->Obj_0);
        }
        Ok(JsonValue::Obj(fields))
    }

    /// Prints this record as JSON text.
    pub fn to_json(&self) -> (r: Result<String, EncodeError>)
        ensures
            r matches Ok(s) && s@ == text_of_json(Self::spec_to_jv(self.deep_view())),
    {
        match self.to_value() {
            Ok(v) => Ok(render_json(&v)),
            Err(e) => Err(e),
        }
    }

    /// A builder staging an all-default WebRTC record.
    pub fn builder() -> (r: RTDCallServerTypeWebrtcBuilder)
        ensures
            r.deep_view() == (CallServerTypeWebrtcView {
                username: Seq::empty(),
                password: Seq::empty(),
                supports_turn: false,
                supports_stun: false,
            }),
    {
        RTDCallServerTypeWebrtcBuilder {
            inner: CallServerTypeWebrtc {
                username: String::new(),
                password: String::new(),
                supports_turn: false,
                supports_stun: false,
            },
        }
    }

    /// The username.
    pub fn username(&self) -> (r: &String)
        ensures
            r@ == self.deep_view().username,
    {
        &self.username
    }

    /// The password.
    pub fn password(&self) -> (r: &String)
        ensures
            r@ == self.deep_view().password,
    {
        &self.password
    }

    /// True, if the server supports TURN.
    pub fn supports_turn(&self) -> (r: bool)
        ensures
            r == self.deep_view().supports_turn,
    {
        self.supports_turn
    }

    /// True, if the server supports STUN.
    pub fn supports_stun(&self) -> (r: bool)
        ensures
            r == self.deep_view().supports_stun,
    {
        self.supports_stun
    }

    /// Decoding the wire form of a record yields that record back.
    pub proof fn lemma_round_trip(m: CallServerTypeWebrtcView)
        ensures
            Self::spec_from_jv(Self::spec_to_jv(m)) == Ok::<_, DecodeErrView>(m),
    {
        reveal_strlit("@type");
        reveal_strlit("callServerTypeWebrtc");
        reveal_strlit("username");
        reveal_strlit("password");
        reveal_strlit("supports_turn");
        reveal_strlit("supports_stun");
        let fs = Self::spec_to_jv(m)->Obj_0;
        assert(("@type"@).len() == 5);
        assert(("username"@).len() == 8);
        assert(("password"@).len() == 8);
        assert(("supports_turn"@).len() == 13);
        assert(("supports_stun"@).len() == 13);
        assert(("username"@)[0] == 'u' && ("password"@)[0] == 'p');
        assert(("supports_turn"@)[9] == 't' && ("supports_stun"@)[9] == 's');
        let f1 = fs.drop_first();
        let f2 = f1.drop_first();
        let f3 = f2.drop_first();
        let f4 = f3.drop_first();
        assert(f1 =~= fs.subrange(1, 5));
        assert(f2 =~= fs.subrange(2, 5));
        assert(f3 =~= fs.subrange(3, 5));
        assert(f4 =~= fs.subrange(4, 5));
        assert(jlookup(fs, "@type"@) == Some(JsonView::Str("callServerTypeWebrtc"@)));
        lemma_jlookup_step(fs, "username"@);
        assert(jlookup(fs, "username"@) == Some(JsonView::Str(m.username)));
        lemma_jlookup_step(fs, "password"@);
        lemma_jlookup_step(f1, "password"@);
        assert(jlookup(fs, "password"@) == Some(JsonView::Str(m.password)));
        lemma_jlookup_step(fs, "supports_turn"@);
        lemma_jlookup_step(f1, "supports_turn"@);
        lemma_jlookup_step(f2, "supports_turn"@);
        assert(jlookup(fs, "supports_turn"@) == Some(JsonView::Bool(m.supports_turn)));
        lemma_jlookup_step(fs, "supports_stun"@);
        lemma_jlookup_step(f1, "supports_stun"@);
        lemma_jlookup_step(f2, "supports_stun"@);
        lemma_jlookup_step(f3, "supports_stun"@);
        assert(jlookup(fs, "supports_stun"@) == Some(JsonView::Bool(m.supports_stun)));
    }

    /// The wire form's discriminator is the record's declared tag.
    pub proof fn lemma_tag_fidelity(m: CallServerTypeWebrtcView)
        ensures
            spec_tag(Self::spec_to_jv(m)) == Some("callServerTypeWebrtc"@),
    {
        let fs = Self::spec_to_jv(m)->Obj_0;
        assert(fs.len() >= 1 && fs[0].0 == "@type"@);
    }
}

/// Staging area for a [`CallServerTypeWebrtc`] under construction.
#[derive(Debug)]
pub struct RTDCallServerTypeWebrtcBuilder {
    inner: CallServerTypeWebrtc,
}

impl DeepView for RTDCallServerTypeWebrtcBuilder {
    type V = CallServerTypeWebrtcView;

    closed spec fn deep_view(&self) -> CallServerTypeWebrtcView {
        self.inner.deep_view()
    }
}

impl RTDCallServerTypeWebrtcBuilder {
    /// Freezes the staged record into an immutable copy; the builder stays
    /// usable and later changes to it leave the copy untouched.
    pub fn build(&self) -> (r: CallServerTypeWebrtc)
        ensures
            r.deep_view() == self.deep_view(),
    {
        self.inner.clone()
    }

    /// Stages the username, overwriting any earlier value.
    pub fn username(&mut self, username: &str)
        ensures
            final(self).deep_view() == (CallServerTypeWebrtcView {
                username: username@,
                ..old(self).deep_view()
            }),
    {
        self.inner.username = str_to_string(username);
    }

    /// Stages the password, overwriting any earlier value.
    pub fn password(&mut self, password: &str)
        ensures
            final(self).deep_view() == (CallServerTypeWebrtcView {
                password: password@,
                ..old(self).deep_view()
            }),
    {
        self.inner.password = str_to_string(password);
    }

    /// Stages TURN support, overwriting any earlier value.
    pub fn supports_turn(&mut self, supports_turn: bool)
        ensures
            final(self).deep_view() == (CallServerTypeWebrtcView {
                supports_turn,
                ..old(self).deep_view()
            }),
    {
        self.inner.supports_turn = supports_turn;
    }

    /// Stages STUN support, overwriting any earlier value.
    pub fn supports_stun(&mut self, supports_stun: bool)
        ensures
            final(self).deep_view() == (CallServerTypeWebrtcView {
                supports_stun,
                ..old(self).deep_view()
            }),
    {
        self.inner.supports_stun = supports_stun;
    }
}

} // verus!
