//! Options used when a message's content is copied without a link to the
//! original message, carried on the wire under the tag `messageCopyOptions`.

use vstd::prelude::*;

use crate::errors::DecodeErrView;
use crate::errors::DecodeError;
use crate::errors::EncodeError;
use crate::errors::res_view;
use crate::formatted_text::FormattedText;
use crate::formatted_text::FormattedTextView;
use crate::json::JsonValue;
use crate::json::JsonView;
use crate::json::get_bool;
use crate::json::get_obj;
use crate::json::jlookup;
use crate::json::json_view_fields;
use crate::json::lemma_jlookup_step;
use crate::json::lemma_json_view_fields;
use crate::json::spec_get_bool;
use crate::json::spec_get_obj;
use crate::json::spec_tag;
use crate::json::str_eq;
use crate::json::str_to_string;
use crate::json::tag_of;
use crate::robject::RObject;
use crate::wire::json_of_text;
use crate::wire::parse_json;
use crate::wire::render_json;
use crate::wire::text_of_json;

verus! {

/// Options used when a message's content is copied.
#[derive(Debug, PartialEq)]
pub struct MessageCopyOptions {
    /// True, if the content is copied without a link to the original.
    send_copy: bool,
    /// True, if the media caption needs to be replaced.
    replace_caption: bool,
    /// The new caption.
    new_caption: FormattedText,
}

/// Mathematical model of a [`MessageCopyOptions`].
pub struct MessageCopyOptionsView {
    pub send_copy: bool,
    pub replace_caption: bool,
    pub new_caption: FormattedTextView,
}

impl DeepView for MessageCopyOptions {
    type V = MessageCopyOptionsView;

    closed spec fn deep_view(&self) -> MessageCopyOptionsView {
        MessageCopyOptionsView {
            send_copy: self.send_copy,
            replace_caption: self.replace_caption,
            new_caption: self.new_caption.deep_view(),
        }
    }
}

impl Clone for MessageCopyOptions {
    /// The copy carries the same model.
    fn clone(&self) -> (r: Self)
        ensures
            r.deep_view() == self.deep_view(),
    {
        MessageCopyOptions {
            send_copy: self.send_copy,
            replace_caption: self.replace_caption,
            new_caption: self.new_caption.clone(),
        }
    }
}

impl RObject for MessageCopyOptions {
    open spec fn wire_tag(&self) -> Seq<char> {
        "messageCopyOptions"@
    }

    fn td_name(&self) -> (r: &'static str) {
        "messageCopyOptions"
    }
}

impl MessageCopyOptions {
    /// The wire form of a record model: the discriminator, then every field.
    pub open spec fn spec_to_jv(m: MessageCopyOptionsView) -> JsonView {
        JsonView::Obj(
            seq![
                ("@type"@, JsonView::Str("messageCopyOptions"@)),
                ("send_copy"@, JsonView::Bool(m.send_copy)),
                ("replace_caption"@, JsonView::Bool(m.replace_caption)),
                ("new_caption"@, FormattedText::spec_to_jv(m.new_caption)),
            ],
        )
    }

    /// What decoding a tree into this record yields.
    pub open spec fn spec_from_jv(j: JsonView) -> Result<MessageCopyOptionsView, DecodeErrView> {
        if spec_tag(j) != Some("messageCopyOptions"@) {
            Err(DecodeErrView::UnknownOrMissingTag)
        } else {
            match spec_get_bool(j->Obj_0, "send_copy"@) {
                Err(e) => Err(e),
                Ok(send_copy) => match spec_get_bool(j->Obj_0, "replace_caption"@) {
                    Err(e) => Err(e),
                    Ok(replace_caption) => match spec_get_obj(j->Obj_0, "new_caption"@) {
                        Err(e) => Err(e),
                        Ok(cj) => match FormattedText::spec_from_jv(cj) {
                            Err(e) => Err(e),
                            Ok(new_caption) => Ok(
                                MessageCopyOptionsView { send_copy, replace_caption, new_caption },
                            ),
                        },
                    },
                },
            }
        }
    }

    /// Decodes JSON text into this record.
    pub fn from_json(s: &str) -> (r: Result<Self, DecodeError>)
        ensures
            match json_of_text(s@) {
                Some(j) => res_view(r) == Self::spec_from_jv(j),
                None => res_view(r) == Err::<MessageCopyOptionsView, _>(DecodeErrView::InvalidJson),
            },
    {
        match parse_json(s) {
            Some(v) => Self::from_value(&v),
            None => Err(DecodeError::InvalidJson),
        }
    }

    /// Decodes a tree into this record; all-or-nothing.
    pub fn from_value(v: &JsonValue) -> (r: Result<Self, DecodeError>)
        ensures
            res_view(r) == Self::spec_from_jv(v.deep_view()),
    {
        let fields = match v {
            JsonValue::Obj(fields) => fields,
            _ => {
                return Err(DecodeError::UnknownOrMissingTag);
            },
        };
        let tag_ok = match tag_of(fields) {
            Some(t) => str_eq(t, "messageCopyOptions"),
            None => false,
        };
        if !tag_ok {
            return Err(DecodeError::UnknownOrMissingTag);
        }
        let send_copy = match get_bool(fields, "send_copy") {
            Ok(b) => b,
            Err(e) => {
                return Err(e);
            },
        };
        let replace_caption = match get_bool(fields, "replace_caption") {
            Ok(b) => b,
            Err(e) => {
                return Err(e);
            },
        };
        let cj = match get_obj(fields, "new_caption") {
            Ok(x) => x,
            Err(e) => {
                return Err(e);
            },
        };
        let new_caption = match FormattedText::from_value(cj) {
            Ok(x) => x,
            Err(e) => {
                return Err(e);
            },
        };
        Ok(MessageCopyOptions { send_copy, replace_caption, new_caption })
    }

    /// Encodes this record as a tree.
    pub fn to_value(&self) -> (r: Result<JsonValue, EncodeError>)
        ensures
            r matches Ok(v) && v.deep_view() == Self::spec_to_jv(self.deep_view()),
    {
        let cv = match self.new_caption.to_value() {
            Ok(v) => v,
            Err(e) => {
                return Err(e);
            },
        };
        let mut fields: Vec<(String, JsonValue)> = Vec::new();
        fields.push((str_to_string("@type"), JsonValue::Str(str_to_string("messageCopyOptions"))));
        fields.push((str_to_string("send_copy"), JsonValue::Bool(self.send_copy)));
        fields.push((str_to_string("replace_caption"), JsonValue::Bool(self.replace_caption)));
        fields.push((str_to_string("new_caption"), cv));
        proof {
            lemma_json_view_fields(fields@);
            assert(fields@.len() == 4);
            assert(fields@[0].0@ == "@type"@);
            assert(fields@[1].0@ == "send_copy"@);
            assert(fields@[2].0@ == "replace_caption"@);
            assert(fields@[3].0@ == "new_caption"@);
            assert(json_view_fields(fields@) =~= Self::spec_to_jv(self.deep_view())->Obj_0);
        }
        Ok(JsonValue::Obj(fields))
    }

    /// Prints this record as JSON text.
    pub fn to_json(&self) -> (r: Result<String, EncodeError>)
        ensures
            r matches Ok(s) && s@ == text_of_json(Self::spec_to_jv(self.deep_view())),
    {
        match self.to_value() {
            Ok(v) => Ok(render_json(&v)),
            Err(e) => Err(e),
        }
    }

    /// A builder staging an all-default record.
    pub fn builder() -> (r: RTDMessageCopyOptionsBuilder)
        ensures
            r.deep_view() == (MessageCopyOptionsView {
                send_copy: false,
                replace_caption: false,
                new_caption: FormattedText::spec_default(),
            }),
    {
        RTDMessageCopyOptionsBuilder {
            inner: MessageCopyOptions {
                send_copy: false,
                replace_caption: false,
                new_caption: FormattedText::default(),
            },
        }
    }

    /// True, if the content is copied without a link to the original.
    pub fn send_copy(&self) -> (r: bool)
        ensures
            r == self.deep_view().send_copy,
    {
        self.send_copy
    }

    /// True, if the media caption needs to be replaced.
    pub fn replace_caption(&self) -> (r: bool)
        ensures
            r == self.deep_view().replace_caption,
    {
        self.replace_caption
    }

    /// The new caption.
    pub fn new_caption(&self) -> (r: &FormattedText)
        ensures
            r.deep_view() == self.deep_view().new_caption,
    {
        &self.new_caption
    }

    /// Decoding the wire form of a record yields that record back.
    pub proof fn lemma_round_trip(m: MessageCopyOptionsView)
        ensures
            Self::spec_from_jv(Self::spec_to_jv(m)) == Ok::<_, DecodeErrView>(m),
    {
        reveal_strlit("@type");
        reveal_strlit("messageCopyOptions");
        reveal_strlit("send_copy");
        reveal_strlit("replace_caption");
        reveal_strlit("new_caption");
        let fs = Self::spec_to_jv(m)->Obj_0;
        assert(("@type"@).len() == 5);
        assert(("send_copy"@).len() == 9);
        assert(("replace_caption"@).len() == 15);
        assert(("new_caption"@).len() == 11);
        let f1 = fs.drop_first();
        let f2 = f1.drop_first();
        let f3 = f2.drop_first();
        assert(f1 =~= fs.subrange(1, 4));
        assert(f2 =~= fs.subrange(2, 4));
        assert(f3 =~= fs.subrange(3, 4));
        assert(jlookup(fs, "@type"@) == Some(JsonView::Str("messageCopyOptions"@)));
        lemma_jlookup_step(fs, "send_copy"@);
        assert(jlookup(fs, "send_copy"@) == Some(JsonView::Bool(m.send_copy)));
        lemma_jlookup_step(fs, "replace_caption"@);
        lemma_jlookup_step(f1, "replace_caption"@);
        assert(jlookup(fs, "replace_caption"@) == Some(JsonView::Bool(m.replace_caption)));
        lemma_jlookup_step(fs, "new_caption"@);
        lemma_jlookup_step(f1, "new_caption"@);
        lemma_jlookup_step(f2, "new_caption"@);
        assert(jlookup(fs, "new_caption"@) == Some(FormattedText::spec_to_jv(m.new_caption)));
        assert(FormattedText::spec_to_jv(m.new_caption) is Obj);
        FormattedText::lemma_round_trip(m.new_caption);
    }

    /// The wire form's discriminator is the record's declared tag.
    pub proof fn lemma_tag_fidelity(m: MessageCopyOptionsView)
        ensures
            spec_tag(Self::spec_to_jv(m)) == Some("messageCopyOptions"@),
    {
        let fs = Self::spec_to_jv(m)->Obj_0;
        assert(fs.len() >= 1 && fs[0].0 == "@type"@);
    }
}

/// Staging area for a [`MessageCopyOptions`] under construction.
#[derive(Debug)]
pub struct RTDMessageCopyOptionsBuilder {
    inner: MessageCopyOptions,
}

impl DeepView for RTDMessageCopyOptionsBuilder {
    type V = MessageCopyOptionsView;

    closed spec fn deep_view(&self) -> MessageCopyOptionsView {
        self.inner.deep_view()
    }
}

impl RTDMessageCopyOptionsBuilder {
    /// Freezes the staged record into an immutable copy; the builder stays
    /// usable and later changes to it leave the copy untouched.
    pub fn build(&self) -> (r: MessageCopyOptions)
        ensures
            r.deep_view() == self.deep_view(),
    {
        self.inner.clone()
    }

    /// Stages the copy flag, overwriting any earlier value.
    pub fn send_copy(&mut self, send_copy: bool)
        ensures
            final(self).deep_view() == (MessageCopyOptionsView {
                send_copy,
                ..old(self).deep_view()
            }),
    {
        self.inner.send_copy = send_copy;
    }

    /// Stages the caption-replacement flag, overwriting any earlier value.
    pub fn replace_caption(&mut self, replace_caption: bool)
        ensures
            final(self).deep_view() == (MessageCopyOptionsView {
                replace_caption,
                ..old(self).deep_view()
            }),
    {
        self.inner.replace_caption = replace_caption;
    }

    /// Stages the new caption, overwriting any earlier value.
    pub fn new_caption(&mut self, new_caption: FormattedText)
        ensures
            final(self).deep_view() == (MessageCopyOptionsView {
                new_caption: new_caption.deep_view(),
                ..old(self).deep_view()
            }),
    {
        self.inner.new_caption = new_caption;
    }
}

} // verus!
