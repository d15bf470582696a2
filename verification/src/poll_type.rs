//! Describes the type of a poll: a union of a quiz-mode poll and a regular
//! poll. The active variant's tag travels under the discriminator key
//! `@type`.

use vstd::prelude::*;

use crate::errors::DecodeErrView;
use crate::errors::DecodeError;
use crate::errors::EncodeError;
use crate::errors::res_view;
use crate::formatted_text::FormattedText;
use crate::formatted_text::FormattedTextView;
use crate::json::JsonValue;
use crate::json::JsonView;
use crate::json::get_i64;
use crate::json::get_obj;
use crate::json::jlookup;
use crate::json::json_view_fields;
use crate::json::lemma_jlookup_step;
use crate::json::lemma_json_view_fields;
use crate::json::spec_get_i64;
use crate::json::spec_get_obj;
use crate::json::spec_tag;
use crate::json::str_eq;
use crate::json::str_to_string;
use crate::json::tag_of;
use crate::robject::RObject;
use crate::wire::json_of_text;
use crate::wire::parse_json;
use crate::wire::render_json;
use crate::wire::text_of_json;

verus! {

/// Marker for the variants of [`PollType`].
pub trait TDPollType: RObject {

}

/// Describes the type of a poll.
#[derive(Debug, PartialEq)]
pub enum PollType {
    /// Sentinel for a not-yet-chosen variant; never a valid wire value.
    _Default(()),
    /// A poll in quiz mode, with exactly one correct answer option.
    Quiz(PollTypeQuiz),
    /// A regular poll.
    Regular(PollTypeRegular),
}

/// Mathematical model of a [`PollType`].
pub enum PollTypeView {
    _Default,
    Quiz(PollTypeQuizView),
    Regular(PollTypeRegularView),
}

/// A poll in quiz mode, which has exactly one correct answer option.
#[derive(Debug, PartialEq)]
pub struct PollTypeQuiz {
    /// 0-based identifier of the correct answer option.
    correct_option_id: i64,
    /// Text shown when the user chooses an incorrect answer.
    explanation: FormattedText,
}

/// Mathematical model of a [`PollTypeQuiz`].
pub struct PollTypeQuizView {
    pub correct_option_id: i64,
    pub explanation: FormattedTextView,
}

/// A regular poll.
#[derive(Debug, PartialEq)]
pub struct PollTypeRegular {
    /// True, if multiple answer options can be chosen simultaneously.
    allow_multiple_answers: bool,
}

/// Mathematical model of a [`PollTypeRegular`].
pub struct PollTypeRegularView {
    pub allow_multiple_answers: bool,
}

impl DeepView for PollType {
    type V = PollTypeView;

    closed spec fn deep_view(&self) -> PollTypeView {
        match self {
            PollType::_Default(_) => PollTypeView::_Default,
            PollType::Quiz(t) => PollTypeView::Quiz(t.deep_view()),
            PollType::Regular(t) => PollTypeView::Regular(t.deep_view()),
        }
    }
}

impl DeepView for PollTypeQuiz {
    type V = PollTypeQuizView;

    closed spec fn deep_view(&self) -> PollTypeQuizView {
        PollTypeQuizView {
            correct_option_id: self.correct_option_id,
            explanation: self.explanation.deep_view(),
        }
    }
}

impl DeepView for PollTypeRegular {
    type V = PollTypeRegularView;

    closed spec fn deep_view(&self) -> PollTypeRegularView {
        PollTypeRegularView { allow_multiple_answers: self.allow_multiple_answers }
    }
}

impl Clone for PollType {
    /// The copy carries the same model.
    fn clone(&self) -> (r: Self)
        ensures
            r.deep_view() == self.deep_view(),
    {
        match self {
            PollType::_Default(_) => PollType::_Default(()),
            PollType::Quiz(t) => PollType::Quiz(t.clone()),
            PollType::Regular(t) => PollType::Regular(t.clone()),
        }
    }
}

impl Clone for PollTypeQuiz {
    /// The copy carries the same model.
    fn clone(&self) -> (r: Self)
        ensures
            r.deep_view() == self.deep_view(),
    {
        PollTypeQuiz {
            correct_option_id: self.correct_option_id,
            explanation: self.explanation.clone(),
        }
    }
}

impl Clone for PollTypeRegular {
    /// The copy carries the same model.
    fn clone(&self) -> (r: Self)
        ensures
            r.deep_view() == self.deep_view(),
    {
        PollTypeRegular { allow_multiple_answers: self.allow_multiple_answers }
    }
}

impl Default for PollType {
    /// The sentinel default variant.
    fn default() -> (r: Self)
        ensures
            r.deep_view() == PollTypeView::_Default,
    {
        PollType::_Default(())
    }
}

impl RObject for PollType {
    open spec fn wire_tag(&self) -> Seq<char> {
        PollType::spec_variant_tag(self.deep_view())
    }

    fn td_name(&self) -> (r: &'static str) {
        match self {
            PollType::Quiz(t) => t.td_name(),
            PollType::Regular(t) => t.td_name(),
            PollType::_Default(_) => "-1",
        }
    }
}

impl RObject for PollTypeQuiz {
    open spec fn wire_tag(&self) -> Seq<char> {
        "pollTypeQuiz"@
    }

    fn td_name(&self) -> (r: &'static str) {
        "pollTypeQuiz"
    }
}

impl RObject for PollTypeRegular {
    open spec fn wire_tag(&self) -> Seq<char> {
        "pollTypeRegular"@
    }

    fn td_name(&self) -> (r: &'static str) {
        "pollTypeRegular"
    }
}

impl TDPollType for PollTypeQuiz {

}

impl TDPollType for PollTypeRegular {

}

impl PollType {
    /// A union value is well formed when a concrete variant is active.
    pub open spec fn wf(m: PollTypeView) -> bool {
        !(m is _Default)
    }

    /// The declared tag of the active variant; the sentinel answers the
    /// internal placeholder, which is never emitted.
    pub open spec fn spec_variant_tag(m: PollTypeView) -> Seq<char> {
        match m {
            PollTypeView::Quiz(_) => "pollTypeQuiz"@,
            PollTypeView::Regular(_) => "pollTypeRegular"@,
            PollTypeView::_Default => "-1"@,
        }
    }

    /// The wire form of a union model; meaningful only for well-formed
    /// models, since the sentinel has no wire form.
    pub open spec fn spec_to_jv(m: PollTypeView) -> JsonView {
        match m {
            PollTypeView::Quiz(t) => PollTypeQuiz::spec_to_jv(t),
            PollTypeView::Regular(t) => PollTypeRegular::spec_to_jv(t),
            PollTypeView::_Default => JsonView::Null,
        }
    }

    /// What decoding a tree into this union yields: the tag picks the
    /// variant, then that variant's record is decoded.
    pub open spec fn spec_from_jv(j: JsonView) -> Result<PollTypeView, DecodeErrView> {
        match spec_tag(j) {
            Option::None => Err(DecodeErrView::UnknownOrMissingTag),
            Option::Some(t) => if t == "pollTypeQuiz"@ {
                match PollTypeQuiz::spec_from_jv(j) {
                    Ok(q) => Ok(PollTypeView::Quiz(q)),
                    Err(e) => Err(e),
                }
            } else if t == "pollTypeRegular"@ {
                match PollTypeRegular::spec_from_jv(j) {
                    Ok(q) => Ok(PollTypeView::Regular(q)),
                    Err(e) => Err(e),
                }
            } else {
                Err(DecodeErrView::UnknownOrMissingTag)
            },
        }
    }

    /// Decodes JSON text into this union.
    pub fn from_json(s: &str) -> (r: Result<Self, DecodeError>)
        ensures
            match json_of_text(s@) {
                Some(j) => res_view(r) == Self::spec_from_jv(j),
                None => res_view(r) == Err::<PollTypeView, _>(DecodeErrView::InvalidJson),
            },
    {
        match parse_json(s) {
            Some(v) => Self::from_value(&v),
            None => Err(DecodeError::InvalidJson),
        }
    }

    /// Decodes a tree into this union; all-or-nothing.
    pub fn from_value(v: &JsonValue) -> (r: Result<Self, DecodeError>)
        ensures
            res_view(r) == Self::spec_from_jv(v.deep_view()),
    {
        let fields = match v {
            JsonValue::Obj(fields) => fields,
            _ => {
                return Err(DecodeError::UnknownOrMissingTag);
            },
        };
        let tag = match tag_of(fields) {
            Some(t) => t,
            None => {
                return Err(DecodeError::UnknownOrMissingTag);
            },
        };
        if str_eq(tag, "pollTypeQuiz") {
            match PollTypeQuiz::from_value(v) {
                Ok(t) => Ok(PollType::Quiz(t)),
                Err(e) => Err(e),
            }
        } else if str_eq(tag, "pollTypeRegular") {
            match PollTypeRegular::from_value(v) {
                Ok(t) => Ok(PollType::Regular(t)),
                Err(e) => Err(e),
            }
        } else {
            Err(DecodeError::UnknownOrMissingTag)
        }
    }

    /// Encodes this union as a tree; the sentinel has no tag and is refused.
    pub fn to_value(&self) -> (r: Result<JsonValue, EncodeError>)
        ensures
            Self::wf(self.deep_view()) ==> (r matches Ok(v) && v.deep_view() == Self::spec_to_jv(
                self.deep_view(),
            )),
            !Self::wf(self.deep_view()) ==> r == Err::<JsonValue, EncodeError>(
                EncodeError::UndefinedVariant,
            ),
    {
        match self {
            PollType::_Default(_) => Err(EncodeError::UndefinedVariant),
            PollType::Quiz(t) => t.to_value(),
            PollType::Regular(t) => t.to_value(),
        }
    }

    /// Prints this union as JSON text; the sentinel is refused.
    pub fn to_json(&self) -> (r: Result<String, EncodeError>)
        ensures
            Self::wf(self.deep_view()) ==> (r matches Ok(s) && s@ == text_of_json(
                Self::spec_to_jv(self.deep_view()),
            )),
            !Self::wf(self.deep_view()) ==> r == Err::<String, EncodeError>(
                EncodeError::UndefinedVariant,
            ),
    {
        match self.to_value() {
            Ok(v) => Ok(render_json(&v)),
            Err(e) => Err(e),
        }
    }

    /// Whether no concrete variant has been chosen yet.
    pub fn _is_default(&self) -> (r: bool)
        ensures
            r == (self.deep_view() is _Default),
    {
        if let PollType::_Default(_) = self {
            true
        } else {
            false
        }
    }

    /// Whether the active variant is the quiz poll.
    pub fn is_quiz(&self) -> (r: bool)
        ensures
            r == (self.deep_view() is Quiz),
    {
        if let PollType::Quiz(_) = self {
            true
        } else {
            false
        }
    }

    /// Whether the active variant is the regular poll.
    pub fn is_regular(&self) -> (r: bool)
        ensures
            r == (self.deep_view() is Regular),
    {
        if let PollType::Regular(_) = self {
            true
        } else {
            false
        }
    }

    /// The quiz variant's record, when it is active.
    pub fn as_quiz(&self) -> (r: Option<&PollTypeQuiz>)
        ensures
            match r {
                Some(t) => self.deep_view() == PollTypeView::Quiz(t.deep_view()),
                None => !(self.deep_view() is Quiz),
            },
    {
        if let PollType::Quiz(t) = self {
            return Some(t);
        }
        None
    }

    /// The regular variant's record, when it is active.
    pub fn as_regular(&self) -> (r: Option<&PollTypeRegular>)
        ensures
            match r {
                Some(t) => self.deep_view() == PollTypeView::Regular(t.deep_view()),
                None => !(self.deep_view() is Regular),
            },
    {
        if let PollType::Regular(t) = self {
            return Some(t);
        }
        None
    }

    /// Calls `fnc` with the quiz record when that variant is active, and
    /// hands the union back either way.
    pub fn on_quiz<F: FnOnce(&PollTypeQuiz)>(&self, fnc: F) -> (r: &Self)
        requires
            forall|t: &PollTypeQuiz| #[trigger] fnc.requires((t,)),
        ensures
            r == self,
    {
        if let PollType::Quiz(t) = self {
            fnc(t);
        }
        self
    }

    /// Wraps a quiz record into the union.
    pub fn quiz(t: PollTypeQuiz) -> (r: Self)
        ensures
            r.deep_view() == PollTypeView::Quiz(t.deep_view()),
    {
        PollType::Quiz(t)
    }

    /// Calls `fnc` with the regular-poll record when that variant is
    /// active, and hands the union back either way.
    pub fn on_regular<F: FnOnce(&PollTypeRegular)>(&self, fnc: F) -> (r: &Self)
        requires
            forall|t: &PollTypeRegular| #[trigger] fnc.requires((t,)),
        ensures
            r == self,
    {
        if let PollType::Regular(t) = self {
            fnc(t);
        }
        self
    }

    /// Wraps a regular-poll record into the union.
    pub fn regular(t: PollTypeRegular) -> (r: Self)
        ensures
            r.deep_view() == PollTypeView::Regular(t.deep_view()),
    {
        PollType::Regular(t)
    }

    /// Decoding never yields the sentinel: every decoded value carries a
    /// concrete variant.
    pub proof fn lemma_decode_concrete(j: JsonView)
        ensures
            Self::spec_from_jv(j) is Ok ==> Self::wf(Self::spec_from_jv(j)->Ok_0),
    {
    }

    /// Decoding the wire form of a concrete variant yields it back.
    pub proof fn lemma_round_trip(m: PollTypeView)
        requires
            Self::wf(m),
        ensures
            Self::spec_from_jv(Self::spec_to_jv(m)) == Ok::<_, DecodeErrView>(m),
    {
        reveal_strlit("pollTypeQuiz");
        reveal_strlit("pollTypeRegular");
        assert(("pollTypeQuiz"@).len() == 12);
        assert(("pollTypeRegular"@).len() == 15);
        match m {
            PollTypeView::Quiz(q) => {
                PollTypeQuiz::lemma_tag_fidelity(q);
                PollTypeQuiz::lemma_round_trip(q);
            },
            PollTypeView::Regular(q) => {
                PollTypeRegular::lemma_tag_fidelity(q);
                PollTypeRegular::lemma_round_trip(q);
            },
            PollTypeView::_Default => {},
        }
    }

    /// The wire form's discriminator is the active variant's declared tag.
    pub proof fn lemma_tag_fidelity(m: PollTypeView)
        requires
            Self::wf(m),
        ensures
            spec_tag(Self::spec_to_jv(m)) == Some(Self::spec_variant_tag(m)),
    {
        match m {
            PollTypeView::Quiz(q) => {
                PollTypeQuiz::lemma_tag_fidelity(q);
            },
            PollTypeView::Regular(q) => {
                PollTypeRegular::lemma_tag_fidelity(q);
            },
            PollTypeView::_Default => {},
        }
    }

    /// A tree whose tag names no variant of this union is rejected with
    /// `UnknownOrMissingTag`; so is one carrying no tag at all.
    pub proof fn lemma_unknown_tag(j: JsonView)
        requires
            match spec_tag(j) {
                Option::Some(t) => t != "pollTypeQuiz"@ && t != "pollTypeRegular"@,
                Option::None => true,
            },
        ensures
            Self::spec_from_jv(j) == Err::<PollTypeView, _>(DecodeErrView::UnknownOrMissingTag),
    {
    }

    /// A quiz-tagged object missing its first required field is rejected
    /// with `MissingField` naming that field.
    pub proof fn lemma_missing_required_field(j: JsonView)
        requires
            spec_tag(j) == Some("pollTypeQuiz"@),
            jlookup(j->Obj_0, "correct_option_id"@) is None,
        ensures
            Self::spec_from_jv(j) == Err::<PollTypeView, _>(
                DecodeErrView::MissingField("correct_option_id"@),
            ),
    {
    }
}

impl PollTypeQuiz {
    /// The wire form of a record model: the discriminator, then every field.
    pub open spec fn spec_to_jv(m: PollTypeQuizView) -> JsonView {
        JsonView::Obj(
            seq![
                ("@type"@, JsonView::Str("pollTypeQuiz"@)),
                ("correct_option_id"@, JsonView::Int(m.correct_option_id)),
                ("explanation"@, FormattedText::spec_to_jv(m.explanation)),
            ],
        )
    }

    /// What decoding a tree into this record yields.
    pub open spec fn spec_from_jv(j: JsonView) -> Result<PollTypeQuizView, DecodeErrView> {
        if spec_tag(j) != Some("pollTypeQuiz"@) {
            Err(DecodeErrView::UnknownOrMissingTag)
        } else {
            match spec_get_i64(j->Obj_0, "correct_option_id"@) {
                Err(e) => Err(e),
                Ok(correct_option_id) => match spec_get_obj(j->Obj_0, "explanation"@) {
                    Err(e) => Err(e),
                    Ok(ej) => match FormattedText::spec_from_jv(ej) {
                        Err(e) => Err(e),
                        Ok(explanation) => Ok(
                            PollTypeQuizView { correct_option_id, explanation },
                        ),
                    },
                },
            }
        }
    }

    /// Decodes JSON text into this record.
    pub fn from_json(s: &str) -> (r: Result<Self, DecodeError>)
        ensures
            match json_of_text(s@) {
                Some(j) => res_view(r) == Self::spec_from_jv(j),
                None => res_view(r) == Err::<PollTypeQuizView, _>(DecodeErrView::InvalidJson),
            },
    {
        match parse_json(s) {
            Some(v) => Self::from_value(&v),
            None => Err(DecodeError::InvalidJson),
        }
    }

    /// Decodes a tree into this record; all-or-nothing.
    pub fn from_value(v: &JsonValue) -> (r: Result<Self, DecodeError>)
        ensures
            res_view(r) == Self::spec_from_jv(v.deep_view()),
    {
        let fields = match v {
            JsonValue::Obj(fields) => fields,
            _ => {
                return Err(DecodeError::UnknownOrMissingTag);
            },
        };
        let tag_ok = match tag_of(fields) {
            Some(t) => str_eq(t, "pollTypeQuiz"),
            None => false,
        };
        if !tag_ok {
            return Err(DecodeError::UnknownOrMissingTag);
        }
        let correct_option_id = match get_i64(fields, "correct_option_id") {
            Ok(n) => n,
            Err(e) => {
                return Err(e);
            },
        };
        let ej = match get_obj(fields, "explanation") {
            Ok(x) => x,
            Err(e) => {
                return Err(e);
            },
        };
        let explanation = match FormattedText::from_value(ej) {
            Ok(x) => x,
            Err(e) => {
                return Err(e);
            },
        };
        Ok(PollTypeQuiz { correct_option_id, explanation })
    }

    /// Encodes this record as a tree.
    pub fn to_value(&self) -> (r: Result<JsonValue, EncodeError>)
        ensures
            r matches Ok(v) && v.deep_view() == Self::spec_to_jv(self.deep_view()),
    {
        let ev = match self.explanation.to_value() {
            Ok(v) => v,
            Err(e) => {
                return Err(e);
            },
        };
        let mut fields: Vec<(String, JsonValue)> = Vec::new();
        fields.push((str_to_string("@type"), JsonValue::Str(str_to_string("pollTypeQuiz"))));
        fields.push((str_to_string("correct_option_id"), JsonValue::Int(self.correct_option_id)));
        fields.push((str_to_string("explanation"), ev));
        proof {
            lemma_json_view_fields(fields@);
            assert(fields@.len() == 3);
            assert(fields@[0].0@ == "@type"@);
            assert(fields@[1].0@ == "correct_option_id"@);
            assert(fields@[2].0@ == "explanation"@);
            assert(json_view_fields(fields@) =~= Self::spec_to_jv(self.deep_view())->Obj_0);
        }
        Ok(JsonValue::Obj(fields))
    }

    /// Prints this record as JSON text.
    pub fn to_json(&self) -> (r: Result<String, EncodeError>)
        ensures
            r matches Ok(s) && s@ == text_of_json(Self::spec_to_jv(self.deep_view())),
    {
        match self.to_value() {
            Ok(v) => Ok(render_json(&v)),
            Err(e) => Err(e),
        }
    }

    /// A builder staging an all-default quiz record.
    pub fn builder() -> (r: RTDPollTypeQuizBuilder)
        ensures
            r.deep_view() == (PollTypeQuizView {
                correct_option_id: 0,
                explanation: FormattedText::spec_default(),
            }),
    {
        RTDPollTypeQuizBuilder {
            inner: PollTypeQuiz { correct_option_id: 0, explanation: FormattedText::default() },
        }
    }

    /// 0-based identifier of the correct answer option.
    pub fn correct_option_id(&self) -> (r: i64)
        ensures
            r == self.deep_view().correct_option_id,
    {
        self.correct_option_id
    }

    /// The explanation text.
    pub fn explanation(&self) -> (r: &FormattedText)
        ensures
            r.deep_view() == self.deep_view().explanation,
    {
        &self.explanation
    }

    /// Decoding the wire form of a record yields that record back.
    pub proof fn lemma_round_trip(m: PollTypeQuizView)
        ensures
            Self::spec_from_jv(Self::spec_to_jv(m)) == Ok::<_, DecodeErrView>(m),
    {
        reveal_strlit("@type");
        reveal_strlit("pollTypeQuiz");
        reveal_strlit("correct_option_id");
        reveal_strlit("explanation");
        let fs = Self::spec_to_jv(m)->Obj_0;
        assert(("@type"@).len() == 5);
        assert(("pollTypeQuiz"@).len() == 12);
        assert(("correct_option_id"@).len() == 17);
        assert(("explanation"@).len() == 11);
        let f1 = fs.drop_first();
        let f2 = f1.drop_first();
        assert(f1 =~= fs.subrange(1, 3));
        assert(f2 =~= fs.subrange(2, 3));
        assert(jlookup(fs, "@type"@) == Some(JsonView::Str("pollTypeQuiz"@)));
        lemma_jlookup_step(fs, "correct_option_id"@);
        assert(jlookup(fs, "correct_option_id"@) == Some(JsonView::Int(m.correct_option_id)));
        lemma_jlookup_step(fs, "explanation"@);
        lemma_jlookup_step(f1, "explanation"@);
        assert(jlookup(fs, "explanation"@) == Some(FormattedText::spec_to_jv(m.explanation)));
        assert(FormattedText::spec_to_jv(m.explanation) is Obj);
        assert(spec_get_obj(fs, "explanation"@) == Ok::<_, DecodeErrView>(
            FormattedText::spec_to_jv(m.explanation),
        ));
        FormattedText::lemma_round_trip(m.explanation);
    }

    /// The wire form's discriminator is the record's declared tag.
    pub proof fn lemma_tag_fidelity(m: PollTypeQuizView)
        ensures
            spec_tag(Self::spec_to_jv(m)) == Some("pollTypeQuiz"@),
    {
        let fs = Self::spec_to_jv(m)->Obj_0;
        assert(fs.len() >= 1 && fs[0].0 == "@type"@);
    }

    /// Staging the same field twice keeps only the last value.
    pub proof fn lemma_setter_last_write_wins(m: PollTypeQuizView, first: i64, last: i64)
        ensures
            (PollTypeQuizView {
                correct_option_id: last,
                ..(PollTypeQuizView { correct_option_id: first, ..m })
            }) == (PollTypeQuizView { correct_option_id: last, ..m }),
    {
    }
}

/// Staging area for a [`PollTypeQuiz`] under construction.
#[derive(Debug)]
pub struct RTDPollTypeQuizBuilder {
    inner: PollTypeQuiz,
}

impl DeepView for RTDPollTypeQuizBuilder {
    type V = PollTypeQuizView;

    closed spec fn deep_view(&self) -> PollTypeQuizView {
        self.inner.deep_view()
    }
}

impl RTDPollTypeQuizBuilder {
    /// Freezes the staged record into an immutable copy; the builder stays
    /// usable and later changes to it leave the copy untouched.
    pub fn build(&self) -> (r: PollTypeQuiz)
        ensures
            r.deep_view() == self.deep_view(),
    {
        self.inner.clone()
    }

    /// Stages the identifier of the correct answer option, overwriting any
    /// earlier value.
    pub fn correct_option_id(&mut self, correct_option_id: i64)
        ensures
            final(self).deep_view() == (PollTypeQuizView {
                correct_option_id,
                ..old(self).deep_view()
            }),
    {
        self.inner.correct_option_id = correct_option_id;
    }

    /// Stages the explanation text, overwriting any earlier value.
    pub fn explanation(&mut self, explanation: FormattedText)
        ensures
            final(self).deep_view() == (PollTypeQuizView {
                explanation: explanation.deep_view(),
                ..old(self).deep_view()
            }),
    {
        self.inner.explanation = explanation;
    }
}

impl PollTypeRegular {
    /// The wire form of a record model: the discriminator, then every field.
    pub open spec fn spec_to_jv(m: PollTypeRegularView) -> JsonView {
        JsonView::Obj(
            seq![
                ("@type"@, JsonView::Str("pollTypeRegular"@)),
                ("allow_multiple_answers"@, JsonView::Bool(m.allow_multiple_answers)),
            ],
        )
    }

    /// What decoding a tree into this record yields.
    pub open spec fn spec_from_jv(j: JsonView) -> Result<PollTypeRegularView, DecodeErrView> {
        if spec_tag(j) != Some("pollTypeRegular"@) {
            Err(DecodeErrView::UnknownOrMissingTag)
        } else {
            match crate::json::spec_get_bool(j->Obj_0, "allow_multiple_answers"@) {
                Err(e) => Err(e),
                Ok(allow_multiple_answers) => Ok(PollTypeRegularView { allow_multiple_answers }),
            }
        }
    }

    /// Decodes JSON text into this record.
    pub fn from_json(s: &str) -> (r: Result<Self, DecodeError>)
        ensures
            match json_of_text(s@) {
                Some(j) => res_view(r) == Self::spec_from_jv(j),
                None => res_view(r) == Err::<PollTypeRegularView, _>(DecodeErrView::InvalidJson),
            },
    {
        match parse_json(s) {
            Some(v) => Self::from_value(&v),
            None => Err(DecodeError::InvalidJson),
        }
    }

    /// Decodes a tree into this record; all-or-nothing.
    pub fn from_value(v: &JsonValue) -> (r: Result<Self, DecodeError>)
        ensures
            res_view(r) == Self::spec_from_jv(v.deep_view()),
    {
        let fields = match v {
            JsonValue::Obj(fields) => fields,
            _ => {
                return Err(DecodeError::UnknownOrMissingTag);
            },
        };
        let tag_ok = match tag_of(fields) {
            Some(t) => str_eq(t, "pollTypeRegular"),
            None => false,
        };
        if !tag_ok {
            return Err(DecodeError::UnknownOrMissingTag);
        }
        let allow_multiple_answers = match crate::json::get_bool(fields, "allow_multiple_answers") {
            Ok(b) => b,
            Err(e) => {
                return Err(e);
            },
        };
        Ok(PollTypeRegular { allow_multiple_answers })
    }

    /// Encodes this record as a tree.
    pub fn to_value(&self) -> (r: Result<JsonValue, EncodeError>)
        ensures
            r matches Ok(v) && v.deep_view() == Self::spec_to_jv(self.deep_view()),
    {
        let mut fields: Vec<(String, JsonValue)> = Vec::new();
        fields.push((str_to_string("@type"), JsonValue::Str(str_to_string("pollTypeRegular"))));
        fields.push(
            (
                str_to_string("allow_multiple_answers"),
                JsonValue::Bool(self.allow_multiple_answers),
            ),
        );
        proof {
            lemma_json_view_fields(fields@);
            assert(fields@.len() == 2);
            assert(fields@[0].0@ == "@type"@);
            assert(fields@[1].0@ == "allow_multiple_answers"@);
            assert(json_view_fields(fields@) =~= Self::spec_to_jv(self.deep_view())->Obj_0);
        }
        Ok(JsonValue::Obj(fields))
    }

    /// Prints this record as JSON text.
    pub fn to_json(&self) -> (r: Result<String, EncodeError>)
        ensures
            r matches Ok(s) && s@ == text_of_json(Self::spec_to_jv(self.deep_view())),
    {
        match self.to_value() {
            Ok(v) => Ok(render_json(&v)),
            Err(e) => Err(e),
        }
    }

    /// A builder staging an all-default regular-poll record.
    pub fn builder() -> (r: RTDPollTypeRegularBuilder)
        ensures
            r.deep_view() == (PollTypeRegularView { allow_multiple_answers: false }),
    {
        RTDPollTypeRegularBuilder { inner: PollTypeRegular { allow_multiple_answers: false } }
    }

    /// True, if multiple answer options can be chosen simultaneously.
    pub fn allow_multiple_answers(&self) -> (r: bool)
        ensures
            r == self.deep_view().allow_multiple_answers,
    {
        self.allow_multiple_answers
    }

    /// Decoding the wire form of a record yields that record back.
    pub proof fn lemma_round_trip(m: PollTypeRegularView)
        ensures
            Self::spec_from_jv(Self::spec_to_jv(m)) == Ok::<_, DecodeErrView>(m),
    {
        reveal_strlit("@type");
        reveal_strlit("pollTypeRegular");
        reveal_strlit("allow_multiple_answers");
        let fs = Self::spec_to_jv(m)->Obj_0;
        assert(("@type"@).len() == 5);
        assert(("pollTypeRegular"@).len() == 15);
        assert(("allow_multiple_answers"@).len() == 22);
        assert(jlookup(fs, "@type"@) == Some(JsonView::Str("pollTypeRegular"@)));
        lemma_jlookup_step(fs, "allow_multiple_answers"@);
        assert(fs.drop_first() =~= seq![
            ("allow_multiple_answers"@, JsonView::Bool(m.allow_multiple_answers)),
        ]);
        assert(jlookup(fs, "allow_multiple_answers"@) == Some(
            JsonView::Bool(m.allow_multiple_answers),
        ));
    }

    /// The wire form's discriminator is the record's declared tag.
    pub proof fn lemma_tag_fidelity(m: PollTypeRegularView)
        ensures
            spec_tag(Self::spec_to_jv(m)) == Some("pollTypeRegular"@),
    {
        let fs = Self::spec_to_jv(m)->Obj_0;
        assert(fs.len() >= 1 && fs[0].0 == "@type"@);
    }
}

/// Staging area for a [`PollTypeRegular`] under construction.
#[derive(Debug)]
pub struct RTDPollTypeRegularBuilder {
    inner: PollTypeRegular,
}

impl DeepView for RTDPollTypeRegularBuilder {
    type V = PollTypeRegularView;

    closed spec fn deep_view(&self) -> PollTypeRegularView {
        self.inner.deep_view()
    }
}

impl RTDPollTypeRegularBuilder {
    /// Freezes the staged record into an immutable copy; the builder stays
    /// usable and later changes to it leave the copy untouched.
    pub fn build(&self) -> (r: PollTypeRegular)
        ensures
            r.deep_view() == self.deep_view(),
    {
        self.inner.clone()
    }

    /// Stages whether multiple answers are allowed, overwriting any earlier
    /// value.
    pub fn allow_multiple_answers(&mut self, allow_multiple_answers: bool)
        ensures
            final(self).deep_view() == (PollTypeRegularView { allow_multiple_answers }),
    {
        self.inner.allow_multiple_answers = allow_multiple_answers;
    }
}

} // verus!
