//! A supergroup or channel, carried on the wire under the tag `supergroup`.
//! The member status field is itself a union, so encoding a supergroup whose
//! status was never chosen is refused.

use vstd::prelude::*;

use crate::chat_member_status::ChatMemberStatus;
use crate::chat_member_status::ChatMemberStatusView;
use crate::errors::DecodeErrView;
use crate::errors::DecodeError;
use crate::errors::EncodeError;
use crate::errors::res_view;
use crate::json::JsonValue;
use crate::json::JsonView;
use crate::json::get_bool;
use crate::json::get_i64;
use crate::json::get_obj;
use crate::json::get_str;
use crate::json::jlookup;
use crate::json::json_view_fields;
use crate::json::lemma_jlookup_at;
use crate::json::lemma_json_view_fields;
use crate::json::spec_get_bool;
use crate::json::spec_get_i64;
use crate::json::spec_get_obj;
use crate::json::spec_get_str;
use crate::json::spec_tag;
use crate::json::str_eq;
use crate::json::str_to_string;
use crate::json::tag_of;
use crate::robject::RObject;
use crate::wire::json_of_text;
use crate::wire::parse_json;
use crate::wire::render_json;
use crate::wire::text_of_json;

verus! {

/// A supergroup or channel.
#[derive(Debug, PartialEq)]
pub struct Supergroup {
    /// Supergroup or channel identifier.
    id: i64,
    /// Username of the supergroup or channel; empty when private.
    username: String,
    /// Point in time (Unix timestamp) when the current user joined.
    date: i64,
    /// Status of the current user in the supergroup or channel.
    status: ChatMemberStatus,
    /// Member count; 0 if unknown.
    member_count: i64,
    /// True, if messages sent to the channel carry sender information.
    sign_messages: bool,
    /// True, if the supergroup is a channel.
    is_channel: bool,
    /// True, if the supergroup or channel is verified.
    is_verified: bool,
    /// If non-empty, the reason access must be restricted.
    restriction_reason: String,
    /// True, if many users reported this supergroup as a scam.
    is_scam: bool,
}

/// Mathematical model of a [`Supergroup`].
pub struct SupergroupView {
    pub id: i64,
    pub username: Seq<char>,
    pub date: i64,
    pub status: ChatMemberStatusView,
    pub member_count: i64,
    pub sign_messages: bool,
    pub is_channel: bool,
    pub is_verified: bool,
    pub restriction_reason: Seq<char>,
    pub is_scam: bool,
}

impl DeepView for Supergroup {
    type V = SupergroupView;

    closed spec fn deep_view(&self) -> SupergroupView {
        SupergroupView {
            id: self.id,
            username: self.username@,
            date: self.date,
            status: self.status.deep_view(),
            member_count: self.member_count,
            sign_messages: self.sign_messages,
            is_channel: self.is_channel,
            is_verified: self.is_verified,
            restriction_reason: self.restriction_reason@,
            is_scam: self.is_scam,
        }
    }
}

impl Clone for Supergroup {
    /// The copy carries the same model.
    fn clone(&self) -> (r: Self)
        ensures
            r.deep_view() == self.deep_view(),
    {
        Supergroup {
            id: self.id,
            username: self.username.clone(),
            date: self.date,
            status: self.status.clone(),
            member_count: self.member_count,
            sign_messages: self.sign_messages,
            is_channel: self.is_channel,
            is_verified: self.is_verified,
            restriction_reason: self.restriction_reason.clone(),
            is_scam: self.is_scam,
        }
    }
}

impl RObject for Supergroup {
    open spec fn wire_tag(&self) -> Seq<char> {
        "supergroup"@
    }

    fn td_name(&self) -> (r: &'static str) {
        "supergroup"
    }
}

impl Supergroup {
    /// A record model is well formed when its union-typed fields are
    /// concrete.
    pub open spec fn wf(m: SupergroupView) -> bool {
        ChatMemberStatus::wf(m.status)
    }

    /// The wire form of a record model: the discriminator, then every field.
    pub open spec fn spec_to_jv(m: SupergroupView) -> JsonView {
        JsonView::Obj(
            seq![
                ("@type"@, JsonView::Str("supergroup"@)),
                ("id"@, JsonView::Int(m.id)),
                ("username"@, JsonView::Str(m.username)),
                ("date"@, JsonView::Int(m.date)),
                ("status"@, ChatMemberStatus::spec_to_jv(m.status)),
                ("member_count"@, JsonView::Int(m.member_count)),
                ("sign_messages"@, JsonView::Bool(m.sign_messages)),
                ("is_channel"@, JsonView::Bool(m.is_channel)),
                ("is_verified"@, JsonView::Bool(m.is_verified)),
                ("restriction_reason"@, JsonView::Str(m.restriction_reason)),
                ("is_scam"@, JsonView::Bool(m.is_scam)),
            ],
        )
    }

    /// What decoding a tree into this record yields.
    pub open spec fn spec_from_jv(j: JsonView) -> Result<SupergroupView, DecodeErrView> {
        if spec_tag(j) != Some("supergroup"@) {
            Err(DecodeErrView::UnknownOrMissingTag)
        } else {
            match spec_get_i64(j->Obj_0, "id"@) {
                Err(e) => Err(e),
                Ok(id) => match spec_get_str(j->Obj_0, "username"@) {
                    Err(e) => Err(e),
                    Ok(username) => match spec_get_i64(j->Obj_0, "date"@) {
                        Err(e) => Err(e),
                        Ok(date) => match spec_get_obj(j->Obj_0, "status"@) {
                            Err(e) => Err(e),
                            Ok(sj) => match ChatMemberStatus::spec_from_jv(sj) {
                                Err(e) => Err(e),
                                Ok(status) => match spec_get_i64(j->Obj_0, "member_count"@) {
                                    Err(e) => Err(e),
                                    Ok(member_count) => match spec_get_bool(
                                        j->Obj_0,
                                        "sign_messages"@,
                                    ) {
                                        Err(e) => Err(e),
                                        Ok(sign_messages) => match spec_get_bool(
                                            j->Obj_0,
                                            "is_channel"@,
                                        ) {
                                            Err(e) => Err(e),
                                            Ok(is_channel) => match spec_get_bool(
                                                j->Obj_0,
                                                "is_verified"@,
                                            ) {
                                                Err(e) => Err(e),
                                                Ok(is_verified) => match spec_get_str(
                                                    j->Obj_0,
                                                    "restriction_reason"@,
                                                ) {
                                                    Err(e) => Err(e),
                                                    Ok(restriction_reason) => match spec_get_bool(
                                                        j->Obj_0,
                                                        "is_scam"@,
                                                    ) {
                                                        Err(e) => Err(e),
                                                        Ok(is_scam) => Ok(
                                                            SupergroupView {
                                                                id,
                                                                username,
                                                                date,
                                                                status,
                                                                member_count,
                                                                sign_messages,
                                                                is_channel,
                                                                is_verified,
                                                                restriction_reason,
                                                                is_scam,
                                                            },
                                                        ),
                                                    },
                                                },
                                            },
                                        },
                                    },
                                },
                            },
                        },
                    },
                },
            }
        }
    }

    /// Decodes JSON text into this record.
    pub fn from_json(s: &str) -> (r: Result<Self, DecodeError>)
        ensures
            match json_of_text(s@) {
                Some(j) => res_view(r) == Self::spec_from_jv(j),
                None => res_view(r) == Err::<SupergroupView, _>(DecodeErrView::InvalidJson),
            },
    {
        match parse_json(s) {
            Some(v) => Self::from_value(&v),
            None => Err(DecodeError::InvalidJson),
        }
    }

    /// Decodes a tree into this record; all-or-nothing.
    pub fn from_value(v: &JsonValue) -> (r: Result<Self, DecodeError>)
        ensures
            res_view(r) == Self::spec_from_jv(v.deep_view()),
    {
        let fields = match v {
            JsonValue::Obj(fields) => fields,
            _ => {
                return Err(DecodeError::UnknownOrMissingTag);
            },
        };
        let tag_ok = match tag_of(fields) {
            Some(t) => str_eq(t, "supergroup"),
            None => false,
        };
        if !tag_ok {
            return Err(DecodeError::UnknownOrMissingTag);
        }
        let id = match get_i64(fields, "id") {
            Ok(n) => n,
            Err(e) => {
                return Err(e);
            },
        };
        let username = match get_str(fields, "username") {
            Ok(s) => s,
            Err(e) => {
                return Err(e);
            },
        };
        let date = match get_i64(fields, "date") {
            Ok(n) => n,
            Err(e) => {
                return Err(e);
            },
        };
        let sj = match get_obj(fields, "status") {
            Ok(x) => x,
            Err(e) => {
                return Err(e);
            },
        };
        let status = match ChatMemberStatus::from_value(sj) {
            Ok(x) => x,
            Err(e) => {
                return Err(e);
            },
        };
        let member_count = match get_i64(fields, "member_count") {
            Ok(n) => n,
            Err(e) => {
                return Err(e);
            },
        };
        let sign_messages = match get_bool(fields, "sign_messages") {
            Ok(b) => b,
            Err(e) => {
                return Err(e);
            },
        };
        let is_channel = match get_bool(fields, "is_channel") {
            Ok(b) => b,
            Err(e) => {
                return Err(e);
            },
        };
        let is_verified = match get_bool(fields, "is_verified") {
            Ok(b) => b,
            Err(e) => {
                return Err(e);
            },
        };
        let restriction_reason = match get_str(fields, "restriction_reason") {
            Ok(s) => s,
            Err(e) => {
                return Err(e);
            },
        };
        let is_scam = match get_bool(fields, "is_scam") {
            Ok(b) => b,
            Err(e) => {
                return Err(e);
            },
        };
        Ok(
            Supergroup {
                id,
                username,
                date,
                status,
                member_count,
                sign_messages,
                is_channel,
                is_verified,
                restriction_reason,
                is_scam,
            },
        )
    }

    /// Encodes this record as a tree; a sentinel in the status field is
    /// refused, since it has no wire form.
    pub fn to_value(&self) -> (r: Result<JsonValue, EncodeError>)
        ensures
            Self::wf(self.deep_view()) ==> (r matches Ok(v) && v.deep_view() == Self::spec_to_jv(
                self.deep_view(),
            )),
            !Self::wf(self.deep_view()) ==> r == Err::<JsonValue, EncodeError>(
                EncodeError::UndefinedVariant,
            ),
    {
        let sv = match self.status.to_value() {
            Ok(v) => v,
            Err(e) => {
                return Err(e);
            },
        };
        let mut fields: Vec<(String, JsonValue)> = Vec::new();
        fields.push((str_to_string("@type"), JsonValue::Str(str_to_string("supergroup"))));
        fields.push((str_to_string("id"), JsonValue::Int(self.id)));
        fields.push((str_to_string("username"), JsonValue::Str(self.username.clone())));
        fields.push((str_to_string("date"), JsonValue::Int(self.date)));
        fields.push((str_to_string("status"), sv));
        fields.push((str_to_string("member_count"), JsonValue::Int(self.member_count)));
        fields.push((str_to_string("sign_messages"), JsonValue::Bool(self.sign_messages)));
        fields.push((str_to_string("is_channel"), JsonValue::Bool(self.is_channel)));
        fields.push((str_to_string("is_verified"), JsonValue::Bool(self.is_verified)));
        fields.push(
            (str_to_string("restriction_reason"), JsonValue::Str(self.restriction_reason.clone())),
        );
        fields.push((str_to_string("is_scam"), JsonValue::Bool(self.is_scam)));
        proof {
            lemma_json_view_fields(fields@);
            assert(fields@.len() == 11);
            assert(fields@[0].0@ == "@type"@);
            assert(fields@[1].0@ == "id"@);
            assert(fields@[2].0@ == "username"@);
            assert(fields@[3].0@ == "date"@);
            assert(fields@[4].0@ == "status"@);
            assert(fields@[5].0@ == "member_count"@);
            assert(fields@[6].0@ == "sign_messages"@);
            assert(fields@[7].0@ == "is_channel"@);
            assert(fields@[8].0@ == "is_verified"@);
            assert(fields@[9].0@ == "restriction_reason"@);
            assert(fields@[10].0@ == "is_scam"@);
            assert(json_view_fields(fields@) =~= Self::spec_to_jv(self.deep_view())->Obj_0);
        }
        Ok(JsonValue::Obj(fields))
    }

    /// Prints this record as JSON text; a sentinel in the status field is
    /// refused.
    pub fn to_json(&self) -> (r: Result<String, EncodeError>)
        ensures
            Self::wf(self.deep_view()) ==> (r matches Ok(s) && s@ == text_of_json(
                Self::spec_to_jv(self.deep_view()),
            )),
            !Self::wf(self.deep_view()) ==> r == Err::<String, EncodeError>(
                EncodeError::UndefinedVariant,
            ),
    {
        match self.to_value() {
            Ok(v) => Ok(render_json(&v)),
            Err(e) => Err(e),
        }
    }

    /// A builder staging an all-default supergroup record.
    pub fn builder() -> (r: RTDSupergroupBuilder)
        ensures
            r.deep_view() == (SupergroupView {
                id: 0,
                username: Seq::empty(),
                date: 0,
                status: ChatMemberStatusView::_Default,
                member_count: 0,
                sign_messages: false,
                is_channel: false,
                is_verified: false,
                restriction_reason: Seq::empty(),
                is_scam: false,
            }),
    {
        RTDSupergroupBuilder {
            inner: Supergroup {
                id: 0,
                username: String::new(),
                date: 0,
                status: ChatMemberStatus::default(),
                member_count: 0,
                sign_messages: false,
                is_channel: false,
                is_verified: false,
                restriction_reason: String::new(),
                is_scam: false,
            },
        }
    }

    /// The identifier.
    pub fn id(&self) -> (r: i64)
        ensures
            r == self.deep_view().id,
    {
        self.id
    }

    /// The username.
    pub fn username(&self) -> (r: &String)
        ensures
            r@ == self.deep_view().username,
    {
        &self.username
    }

    /// The join or creation time.
    pub fn date(&self) -> (r: i64)
        ensures
            r == self.deep_view().date,
    {
        self.date
    }

    /// The current user's status.
    pub fn status(&self) -> (r: &ChatMemberStatus)
        ensures
            r.deep_view() == self.deep_view().status,
    {
        &self.status
    }

    /// The member count.
    pub fn member_count(&self) -> (r: i64)
        ensures
            r == self.deep_view().member_count,
    {
        self.member_count
    }

    /// Whether channel messages carry sender information.
    pub fn sign_messages(&self) -> (r: bool)
        ensures
            r == self.deep_view().sign_messages,
    {
        self.sign_messages
    }

    /// Whether the supergroup is a channel.
    pub fn is_channel(&self) -> (r: bool)
        ensures
            r == self.deep_view().is_channel,
    {
        self.is_channel
    }

    /// Whether the supergroup or channel is verified.
    pub fn is_verified(&self) -> (r: bool)
        ensures
            r == self.deep_view().is_verified,
    {
        self.is_verified
    }

    /// The restriction reason.
    pub fn restriction_reason(&self) -> (r: &String)
        ensures
            r@ == self.deep_view().restriction_reason,
    {
        &self.restriction_reason
    }

    /// Whether many users reported this supergroup as a scam.
    pub fn is_scam(&self) -> (r: bool)
        ensures
            r == self.deep_view().is_scam,
    {
        self.is_scam
    }

    /// Decoding never yields a sentinel inside: the decoded status field
    /// carries a concrete variant.
    pub proof fn lemma_decode_concrete(j: JsonView)
        ensures
            Self::spec_from_jv(j) is Ok ==> Self::wf(Self::spec_from_jv(j)->Ok_0),
    {
        if Self::spec_from_jv(j) is Ok {
            let sj = spec_get_obj(j->Obj_0, "status"@)->Ok_0;
            ChatMemberStatus::lemma_decode_concrete(sj);
        }
    }

    /// Decoding the wire form of a well-formed record yields it back.
    pub proof fn lemma_round_trip(m: SupergroupView)
        requires
            Self::wf(m),
        ensures
            Self::spec_from_jv(Self::spec_to_jv(m)) == Ok::<_, DecodeErrView>(m),
    {
        reveal_strlit("@type");
        reveal_strlit("supergroup");
        reveal_strlit("id");
        reveal_strlit("username");
        reveal_strlit("date");
        reveal_strlit("status");
        reveal_strlit("member_count");
        reveal_strlit("sign_messages");
        reveal_strlit("is_channel");
        reveal_strlit("is_verified");
        reveal_strlit("restriction_reason");
        reveal_strlit("is_scam");
        let fs = Self::spec_to_jv(m)->Obj_0;
        assert(("@type"@).len() == 5);
        assert(("id"@).len() == 2);
        assert(("username"@).len() == 8);
        assert(("date"@).len() == 4);
        assert(("status"@).len() == 6);
        assert(("member_count"@).len() == 12);
        assert(("sign_messages"@).len() == 13);
        assert(("is_channel"@).len() == 10);
        assert(("is_verified"@).len() == 11);
        assert(("restriction_reason"@).len() == 18);
        assert(("is_scam"@).len() == 7);
        assert(jlookup(fs, "@type"@) == Some(JsonView::Str("supergroup"@)));
        lemma_jlookup_at(fs, "id"@, 1);
        lemma_jlookup_at(fs, "username"@, 2);
        lemma_jlookup_at(fs, "date"@, 3);
        lemma_jlookup_at(fs, "status"@, 4);
        lemma_jlookup_at(fs, "member_count"@, 5);
        lemma_jlookup_at(fs, "sign_messages"@, 6);
        lemma_jlookup_at(fs, "is_channel"@, 7);
        lemma_jlookup_at(fs, "is_verified"@, 8);
        lemma_jlookup_at(fs, "restriction_reason"@, 9);
        lemma_jlookup_at(fs, "is_scam"@, 10);
        assert(jlookup(fs, "status"@) == Some(ChatMemberStatus::spec_to_jv(m.status)));
        assert(ChatMemberStatus::spec_to_jv(m.status) is Obj);
        ChatMemberStatus::lemma_round_trip(m.status);
    }

    /// The wire form's discriminator is the record's declared tag.
    pub proof fn lemma_tag_fidelity(m: SupergroupView)
        ensures
            spec_tag(Self::spec_to_jv(m)) == Some("supergroup"@),
    {
        let fs = Self::spec_to_jv(m)->Obj_0;
        assert(fs.len() >= 1 && fs[0].0 == "@type"@);
    }
}

/// Staging area for a [`Supergroup`] under construction.
#[derive(Debug)]
pub struct RTDSupergroupBuilder {
    inner: Supergroup,
}

impl DeepView for RTDSupergroupBuilder {
    type V = SupergroupView;

    closed spec fn deep_view(&self) -> SupergroupView {
        self.inner.deep_view()
    }
}

impl RTDSupergroupBuilder {
    /// Freezes the staged record into an immutable copy; the builder stays
    /// usable and later changes to it leave the copy untouched.
    pub fn build(&self) -> (r: Supergroup)
        ensures
            r.deep_view() == self.deep_view(),
    {
        self.inner.clone()
    }

    /// Stages the identifier, overwriting any earlier value.
    pub fn id(&mut self, id: i64)
        ensures
            final(self).deep_view() == (SupergroupView { id, ..old(self).deep_view() }),
    {
        self.inner.id = id;
    }

    /// Stages the username, overwriting any earlier value.
    pub fn username(&mut self, username: &str)
        ensures
            final(self).deep_view() == (SupergroupView {
                username: username@,
                ..old(self).deep_view()
            }),
    {
        self.inner.username = str_to_string(username);
    }

    /// Stages the join or creation time, overwriting any earlier value.
    pub fn date(&mut self, date: i64)
        ensures
            final(self).deep_view() == (SupergroupView { date, ..old(self).deep_view() }),
    {
        self.inner.date = date;
    }

    /// Stages the member status, overwriting any earlier value.
    pub fn status(&mut self, status: ChatMemberStatus)
        ensures
            final(self).deep_view() == (SupergroupView {
                status: status.deep_view(),
                ..old(self).deep_view()
            }),
    {
        self.inner.status = status;
    }

    /// Stages the member count, overwriting any earlier value.
    pub fn member_count(&mut self, member_count: i64)
        ensures
            final(self).deep_view() == (SupergroupView { member_count, ..old(self).deep_view() }),
    {
        self.inner.member_count = member_count;
    }

    /// Stages the signing flag, overwriting any earlier value.
    pub fn sign_messages(&mut self, sign_messages: bool)
        ensures
            final(self).deep_view() == (SupergroupView { sign_messages, ..old(self).deep_view() }),
    {
        self.inner.sign_messages = sign_messages;
    }

    /// Stages the channel flag, overwriting any earlier value.
    pub fn is_channel(&mut self, is_channel: bool)
        ensures
            final(self).deep_view() == (SupergroupView { is_channel, ..old(self).deep_view() }),
    {
        self.inner.is_channel = is_channel;
    }

    /// Stages the verification flag, overwriting any earlier value.
    pub fn is_verified(&mut self, is_verified: bool)
        ensures
            final(self).deep_view() == (SupergroupView { is_verified, ..old(self).deep_view() }),
    {
        self.inner.is_verified = is_verified;
    }

    /// Stages the restriction reason, overwriting any earlier value.
    pub fn restriction_reason(&mut self, restriction_reason: &str)
        ensures
            final(self).deep_view() == (SupergroupView {
                restriction_reason: restriction_reason@,
                ..old(self).deep_view()
            }),
    {
        self.inner.restriction_reason = str_to_string(restriction_reason);
    }

    /// Stages the scam flag, overwriting any earlier value.
    pub fn is_scam(&mut self, is_scam: bool)
        ensures
            final(self).deep_view() == (SupergroupView { is_scam, ..old(self).deep_view() }),
    {
        self.inner.is_scam = is_scam;
    }
}

} // verus!
