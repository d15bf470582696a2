//! An instant-view page for a web page, carried on the wire under the tag
//! `webPageInstantView`. Its content is a sequence of page blocks, encoded
//! as a JSON array in order; decoding the array is all-or-nothing, the
//! first bad element failing the whole call.

use vstd::prelude::*;

use crate::errors::DecodeErrView;
use crate::errors::DecodeError;
use crate::errors::EncodeError;
use crate::errors::res_view;
use crate::json::JsonValue;
use crate::json::JsonView;
use crate::json::get_arr;
use crate::json::get_bool;
use crate::json::get_i64;
use crate::json::jlookup;
use crate::json::json_view_fields;
use crate::json::json_view_seq;
use crate::json::lemma_jlookup_at;
use crate::json::lemma_json_view_fields;
use crate::json::lemma_json_view_seq;
use crate::json::spec_get_arr;
use crate::json::spec_get_bool;
use crate::json::spec_get_i64;
use crate::json::spec_tag;
use crate::json::str_eq;
use crate::json::str_to_string;
use crate::json::tag_of;
use crate::page_block::PageBlock;
use crate::page_block::PageBlockView;
use crate::robject::RObject;
use crate::wire::json_of_text;
use crate::wire::parse_json;
use crate::wire::render_json;
use crate::wire::text_of_json;

verus! {

/// An instant-view page for a web page.
#[derive(Debug, PartialEq)]
pub struct WebPageInstantView {
    /// Content of the web page.
    page_blocks: Vec<PageBlock>,
    /// Number of views; 0 if unknown.
    view_count: i64,
    /// Version of the instant view.
    version: i64,
    /// True, if the instant view is shown from right to left.
    is_rtl: bool,
    /// True, if the instant view contains the full page.
    is_full: bool,
}

/// Mathematical model of a [`WebPageInstantView`].
pub struct WebPageInstantViewView {
    pub page_blocks: Seq<PageBlockView>,
    pub view_count: i64,
    pub version: i64,
    pub is_rtl: bool,
    pub is_full: bool,
}

impl DeepView for WebPageInstantView {
    type V = WebPageInstantViewView;

    closed spec fn deep_view(&self) -> WebPageInstantViewView {
        WebPageInstantViewView {
            page_blocks: self.page_blocks.deep_view(),
            view_count: self.view_count,
            version: self.version,
            is_rtl: self.is_rtl,
            is_full: self.is_full,
        }
    }
}

impl Clone for WebPageInstantView {
    /// The copy carries the same model.
    fn clone(&self) -> (r: Self)
        ensures
            r.deep_view() == self.deep_view(),
    {
        let mut page_blocks: Vec<PageBlock> = Vec::new();
        let mut i: usize = 0;
        while i < self.page_blocks.len()
            invariant
                i <= self.page_blocks.len(),
                page_blocks@.len() == i,
                forall|k: int|
                    0 <= k < i ==> (#[trigger] page_blocks@[k]).deep_view()
                        == self.page_blocks@[k].deep_view(),
            decreases self.page_blocks.len() - i,
        {
            page_blocks.push(self.page_blocks[i].clone());
            i = i + 1;
        }
        proof {
            assert(page_blocks.deep_view() =~= self.page_blocks.deep_view());
        }
        WebPageInstantView {
            page_blocks,
            view_count: self.view_count,
            version: self.version,
            is_rtl: self.is_rtl,
            is_full: self.is_full,
        }
    }
}

impl RObject for WebPageInstantView {
    open spec fn wire_tag(&self) -> Seq<char> {
        "webPageInstantView"@
    }

    fn td_name(&self) -> (r: &'static str) {
        "webPageInstantView"
    }
}

/// The wire forms of a sequence of block models, in order.
pub open spec fn spec_blocks_to_jv(bs: Seq<PageBlockView>) -> Seq<JsonView> {
    Seq::new(bs.len(), |i: int| PageBlock::spec_to_jv(bs[i]))
}

/// What decoding a JSON array elementwise into blocks yields: every element
/// in order, or the first element's error.
pub open spec fn spec_blocks_from_jv(items: Seq<JsonView>) -> Result<
    Seq<PageBlockView>,
    DecodeErrView,
>
    decreases items.len(),
{
    if items.len() == 0 {
        Ok(Seq::empty())
    } else {
        match PageBlock::spec_from_jv(items[0]) {
            Err(e) => Err(e),
            Ok(b) => match spec_blocks_from_jv(items.drop_first()) {
                Err(e) => Err(e),
                Ok(rest) => Ok(seq![b] + rest),
            },
        }
    }
}

/// When every element up to `i` decodes, and element `i` fails, the whole
/// array fails with that element's error.
proof fn lemma_blocks_first_err(items: Seq<JsonView>, i: int, e: DecodeErrView)
    requires
        0 <= i < items.len(),
        forall|k: int| 0 <= k < i ==> PageBlock::spec_from_jv(#[trigger] items[k]) is Ok,
        PageBlock::spec_from_jv(items[i]) == Err::<PageBlockView, _>(e),
    ensures
        spec_blocks_from_jv(items) == Err::<Seq<PageBlockView>, _>(e),
    decreases i,
{
    if i > 0 {
        assert forall|k: int|
            0 <= k < i - 1 implies PageBlock::spec_from_jv(
            #[trigger] items.drop_first()[k],
        ) is Ok by {
            assert(items.drop_first()[k] == items[k + 1]);
        }
        assert(items.drop_first()[i - 1] == items[i]);
        lemma_blocks_first_err(items.drop_first(), i - 1, e);
    }
}

/// When every element decodes, the whole array decodes to the elements in
/// order.
proof fn lemma_blocks_all_ok(items: Seq<JsonView>, bs: Seq<PageBlockView>)
    requires
        items.len() == bs.len(),
        forall|k: int|
            0 <= k < items.len() ==> PageBlock::spec_from_jv(#[trigger] items[k]) == Ok::<
                _,
                DecodeErrView,
            >(bs[k]),
    ensures
        spec_blocks_from_jv(items) == Ok::<_, DecodeErrView>(bs),
    decreases items.len(),
{
    if items.len() == 0 {
        assert(bs =~= Seq::<PageBlockView>::empty());
    } else {
        assert(PageBlock::spec_from_jv(items[0]) == Ok::<_, DecodeErrView>(bs[0]));
        assert forall|k: int|
            0 <= k < items.drop_first().len() implies PageBlock::spec_from_jv(
            #[trigger] items.drop_first()[k],
        ) == Ok::<_, DecodeErrView>(bs.drop_first()[k]) by {
            assert(items.drop_first()[k] == items[k + 1]);
            assert(bs.drop_first()[k] == bs[k + 1]);
        }
        lemma_blocks_all_ok(items.drop_first(), bs.drop_first());
        assert(seq![bs[0]] + bs.drop_first() =~= bs);
    }
}

/// Decoding the wire forms of a sequence of blocks yields the sequence
/// back.
pub proof fn lemma_blocks_round_trip(bs: Seq<PageBlockView>)
    ensures
        spec_blocks_from_jv(spec_blocks_to_jv(bs)) == Ok::<_, DecodeErrView>(bs),
{
    let items = spec_blocks_to_jv(bs);
    assert forall|k: int|
        0 <= k < items.len() implies PageBlock::spec_from_jv(#[trigger] items[k]) == Ok::<
        _,
        DecodeErrView,
    >(bs[k]) by {
        PageBlock::lemma_round_trip(bs[k]);
    }
    lemma_blocks_all_ok(items, bs);
}

impl WebPageInstantView {
    /// The wire form of a record model: the discriminator, then every field.
    pub open spec fn spec_to_jv(m: WebPageInstantViewView) -> JsonView {
        JsonView::Obj(
            seq![
                ("@type"@, JsonView::Str("webPageInstantView"@)),
                ("page_blocks"@, JsonView::Arr(spec_blocks_to_jv(m.page_blocks))),
                ("view_count"@, JsonView::Int(m.view_count)),
                ("version"@, JsonView::Int(m.version)),
                ("is_rtl"@, JsonView::Bool(m.is_rtl)),
                ("is_full"@, JsonView::Bool(m.is_full)),
            ],
        )
    }

    /// What decoding a tree into this record yields.
    pub open spec fn spec_from_jv(j: JsonView) -> Result<WebPageInstantViewView, DecodeErrView> {
        if spec_tag(j) != Some("webPageInstantView"@) {
            Err(DecodeErrView::UnknownOrMissingTag)
        } else {
            match spec_get_arr(j->Obj_0, "page_blocks"@) {
                Err(e) => Err(e),
                Ok(items) => match spec_blocks_from_jv(items) {
                    Err(e) => Err(e),
                    Ok(page_blocks) => match spec_get_i64(j->Obj_0, "view_count"@) {
                        Err(e) => Err(e),
                        Ok(view_count) => match spec_get_i64(j->Obj_0, "version"@) {
                            Err(e) => Err(e),
                            Ok(version) => match spec_get_bool(j->Obj_0, "is_rtl"@) {
                                Err(e) => Err(e),
                                Ok(is_rtl) => match spec_get_bool(j->Obj_0, "is_full"@) {
                                    Err(e) => Err(e),
                                    Ok(is_full) => Ok(
                                        WebPageInstantViewView {
                                            page_blocks,
                                            view_count,
                                            version,
                                            is_rtl,
                                            is_full,
                                        },
                                    ),
                                },
                            },
                        },
                    },
                },
            }
        }
    }

    /// Decodes JSON text into this record.
    pub fn from_json(s: &str) -> (r: Result<Self, DecodeError>)
        ensures
            match json_of_text(s@) {
                Some(j) => res_view(r) == Self::spec_from_jv(j),
                None => res_view(r) == Err::<WebPageInstantViewView, _>(DecodeErrView::InvalidJson),
            },
    {
        match parse_json(s) {
            Some(v) => Self::from_value(&v),
            None => Err(DecodeError::InvalidJson),
        }
    }

    /// Decodes a tree into this record; all-or-nothing, the first bad block
    /// failing the whole call.
    #[verifier::loop_isolation(false)]
    pub fn from_value(v: &JsonValue) -> (r: Result<Self, DecodeError>)
        ensures
            res_view(r) == Self::spec_from_jv(v.deep_view()),
    {
        let fields = match v {
            JsonValue::Obj(fields) => fields,
            _ => {
                return Err(DecodeError::UnknownOrMissingTag);
            },
        };
        let tag_ok = match tag_of(fields) {
            Some(t) => str_eq(t, "webPageInstantView"),
            None => false,
        };
        if !tag_ok {
            return Err(DecodeError::UnknownOrMissingTag);
        }
        let items = match get_arr(fields, "page_blocks") {
            Ok(x) => x,
            Err(e) => {
                return Err(e);
            },
        };
        let ghost itemsv = json_view_seq(items@);
        proof {
            lemma_json_view_seq(items@);
        }
        let mut page_blocks: Vec<PageBlock> = Vec::new();
        let mut i: usize = 0;
        while i < items.len()
            invariant
                i <= items.len(),
                itemsv == json_view_seq(items@),
                itemsv.len() == items@.len(),
                forall|k: int|
                    0 <= k < items@.len() ==> itemsv[k] == crate::json::json_view(
                        #[trigger] items@[k],
                    ),
                page_blocks@.len() == i,
                forall|k: int|
                    0 <= k < i ==> #[trigger] PageBlock::spec_from_jv(itemsv[k]) == Ok::<
                        _,
                        DecodeErrView,
                    >(page_blocks@[k].deep_view()),
            decreases items.len() - i,
        {
            match PageBlock::from_value(&items[i]) {
                Ok(b) => {
                    page_blocks.push(b);
                },
                Err(e) => {
                    proof {
                        assert(itemsv[i as int] == crate::json::json_view(items@[i as int]));
                        assert(PageBlock::spec_from_jv(itemsv[i as int]) == Err::<
                            PageBlockView,
                            _,
                        >(e.deep_view()));
                        assert forall|k: int|
                            0 <= k < i implies PageBlock::spec_from_jv(
                            #[trigger] itemsv[k],
                        ) is Ok by {
                            assert(PageBlock::spec_from_jv(itemsv[k]) == Ok::<_, DecodeErrView>(
                                page_blocks@[k].deep_view(),
                            ));
                        }
                        lemma_blocks_first_err(itemsv, i as int, e.deep_view());
                    }
                    return Err(e);
                },
            }
            i = i + 1;
        }
        proof {
            assert forall|k: int|
                0 <= k < itemsv.len() implies PageBlock::spec_from_jv(#[trigger] itemsv[k]) == Ok::<
                _,
                DecodeErrView,
            >(page_blocks.deep_view()[k]) by {
                assert(PageBlock::spec_from_jv(itemsv[k]) == Ok::<_, DecodeErrView>(
                    page_blocks@[k].deep_view(),
                ));
            }
            lemma_blocks_all_ok(itemsv, page_blocks.deep_view());
        }
        let view_count = match get_i64(fields, "view_count") {
            Ok(n) => n,
            Err(e) => {
                return Err(e);
            },
        };
        let version = match get_i64(fields, "version") {
            Ok(n) => n,
            Err(e) => {
                return Err(e);
            },
        };
        let is_rtl = match get_bool(fields, "is_rtl") {
            Ok(b) => b,
            Err(e) => {
                return Err(e);
            },
        };
        let is_full = match get_bool(fields, "is_full") {
            Ok(b) => b,
            Err(e) => {
                return Err(e);
            },
        };
        Ok(WebPageInstantView { page_blocks, view_count, version, is_rtl, is_full })
    }

    /// Encodes this record as a tree.
    pub fn to_value(&self) -> (r: Result<JsonValue, EncodeError>)
        ensures
            r matches Ok(v) && v.deep_view() == Self::spec_to_jv(self.deep_view()),
    {
        let ghost target = spec_blocks_to_jv(self.page_blocks.deep_view());
        let mut items: Vec<JsonValue> = Vec::new();
        let mut i: usize = 0;
        while i < self.page_blocks.len()
            invariant
                i <= self.page_blocks.len(),
                target == spec_blocks_to_jv(self.page_blocks.deep_view()),
                target.len() == self.page_blocks@.len(),
                items@.len() == i,
                forall|k: int|
                    0 <= k < i ==> crate::json::json_view(#[trigger] items@[k]) == target[k],
            decreases self.page_blocks.len() - i,
        {
            let bv = match self.page_blocks[i].to_value() {
                Ok(v) => v,
                Err(e) => {
                    return Err(e);
                },
            };
            items.push(bv);
            i = i + 1;
        }
        proof {
            lemma_json_view_seq(items@);
            assert forall|k: int| 0 <= k < items@.len() implies json_view_seq(items@)[k]
                == target[k] by {
                assert(crate::json::json_view(items@[k]) == target[k]);
            }
            assert(json_view_seq(items@) =~= target);
        }
        let mut fields: Vec<(String, JsonValue)> = Vec::new();
        fields.push((str_to_string("@type"), JsonValue::Str(str_to_string("webPageInstantView"))));
        fields.push((str_to_string("page_blocks"), JsonValue::Arr(items)));
        fields.push((str_to_string("view_count"), JsonValue::Int(self.view_count)));
        fields.push((str_to_string("version"), JsonValue::Int(self.version)));
        fields.push((str_to_string("is_rtl"), JsonValue::Bool(self.is_rtl)));
        fields.push((str_to_string("is_full"), JsonValue::Bool(self.is_full)));
        proof {
            lemma_json_view_fields(fields@);
            assert(fields@.len() == 6);
            assert(fields@[0].0@ == "@type"@);
            assert(fields@[1].0@ == "page_blocks"@);
            assert(fields@[2].0@ == "view_count"@);
            assert(fields@[3].0@ == "version"@);
            assert(fields@[4].0@ == "is_rtl"@);
            assert(fields@[5].0@ == "is_full"@);
            assert(json_view_fields(fields@) =~= Self::spec_to_jv(self.deep_view())->Obj_0);
        }
        Ok(JsonValue::Obj(fields))
    }

    /// Prints this record as JSON text.
    pub fn to_json(&self) -> (r: Result<String, EncodeError>)
        ensures
            r matches Ok(s) && s@ == text_of_json(Self::spec_to_jv(self.deep_view())),
    {
        match self.to_value() {
            Ok(v) => Ok(render_json(&v)),
            Err(e) => Err(e),
        }
    }

    /// A builder staging an all-default record.
    pub fn builder() -> (r: RTDWebPageInstantViewBuilder)
        ensures
            r.deep_view() == (WebPageInstantViewView {
                page_blocks: Seq::empty(),
                view_count: 0,
                version: 0,
                is_rtl: false,
                is_full: false,
            }),
    {
        let page_blocks: Vec<PageBlock> = Vec::new();
        proof {
            assert(page_blocks.deep_view() =~= Seq::<PageBlockView>::empty());
        }
        RTDWebPageInstantViewBuilder {
            inner: WebPageInstantView {
                page_blocks,
                view_count: 0,
                version: 0,
                is_rtl: false,
                is_full: false,
            },
        }
    }

    /// The content blocks.
    pub fn page_blocks(&self) -> (r: &Vec<PageBlock>)
        ensures
            r.deep_view() == self.deep_view().page_blocks,
    {
        &self.page_blocks
    }

    /// The view count.
    pub fn view_count(&self) -> (r: i64)
        ensures
            r == self.deep_view().view_count,
    {
        self.view_count
    }

    /// The instant-view version.
    pub fn version(&self) -> (r: i64)
        ensures
            r == self.deep_view().version,
    {
        self.version
    }

    /// Whether the page is shown from right to left.
    pub fn is_rtl(&self) -> (r: bool)
        ensures
            r == self.deep_view().is_rtl,
    {
        self.is_rtl
    }

    /// Whether the instant view contains the full page.
    pub fn is_full(&self) -> (r: bool)
        ensures
            r == self.deep_view().is_full,
    {
        self.is_full
    }

    /// Decoding the wire form of a record yields that record back, every
    /// block included.
    pub proof fn lemma_round_trip(m: WebPageInstantViewView)
        ensures
            Self::spec_from_jv(Self::spec_to_jv(m)) == Ok::<_, DecodeErrView>(m),
    {
        reveal_strlit("@type");
        reveal_strlit("webPageInstantView");
        reveal_strlit("page_blocks");
        reveal_strlit("view_count");
        reveal_strlit("version");
        reveal_strlit("is_rtl");
        reveal_strlit("is_full");
        let fs = Self::spec_to_jv(m)->Obj_0;
        assert(("@type"@).len() == 5);
        assert(("page_blocks"@).len() == 11);
        assert(("view_count"@).len() == 10);
        assert(("version"@).len() == 7);
        assert(("is_rtl"@).len() == 6);
        assert(("is_full"@).len() == 7);
        assert(("version"@)[0] == 'v' && ("is_full"@)[0] == 'i');
        assert(jlookup(fs, "@type"@) == Some(JsonView::Str("webPageInstantView"@)));
        lemma_jlookup_at(fs, "page_blocks"@, 1);
        lemma_jlookup_at(fs, "view_count"@, 2);
        lemma_jlookup_at(fs, "version"@, 3);
        lemma_jlookup_at(fs, "is_rtl"@, 4);
        lemma_jlookup_at(fs, "is_full"@, 5);
        lemma_blocks_round_trip(m.page_blocks);
    }

    /// The wire form's discriminator is the record's declared tag.
    pub proof fn lemma_tag_fidelity(m: WebPageInstantViewView)
        ensures
            spec_tag(Self::spec_to_jv(m)) == Some("webPageInstantView"@),
    {
        let fs = Self::spec_to_jv(m)->Obj_0;
        assert(fs.len() >= 1 && fs[0].0 == "@type"@);
    }
}

/// Staging area for a [`WebPageInstantView`] under construction.
#[derive(Debug)]
pub struct RTDWebPageInstantViewBuilder {
    inner: WebPageInstantView,
}

impl DeepView for RTDWebPageInstantViewBuilder {
    type V = WebPageInstantViewView;

    closed spec fn deep_view(&self) -> WebPageInstantViewView {
        self.inner.deep_view()
    }
}

impl RTDWebPageInstantViewBuilder {
    /// Freezes the staged record into an immutable copy; the builder stays
    /// usable and later changes to it leave the copy untouched.
    pub fn build(&self) -> (r: WebPageInstantView)
        ensures
            r.deep_view() == self.deep_view(),
    {
        self.inner.clone()
    }

    /// Stages the content blocks, overwriting any earlier value.
    pub fn page_blocks(&mut self, page_blocks: Vec<PageBlock>)
        ensures
            final(self).deep_view() == (WebPageInstantViewView {
                page_blocks: page_blocks.deep_view(),
                ..old(self).deep_view()
            }),
    {
        self.inner.page_blocks = page_blocks;
    }

    /// Stages the view count, overwriting any earlier value.
    pub fn view_count(&mut self, view_count: i64)
        ensures
            final(self).deep_view() == (WebPageInstantViewView {
                view_count,
                ..old(self).deep_view()
            }),
    {
        self.inner.view_count = view_count;
    }

    /// Stages the version, overwriting any earlier value.
    pub fn version(&mut self, version: i64)
        ensures
            final(self).deep_view() == (WebPageInstantViewView {
                version,
                ..old(self).deep_view()
            }),
    {
        self.inner.version = version;
    }

    /// Stages the right-to-left flag, overwriting any earlier value.
    pub fn is_rtl(&mut self, is_rtl: bool)
        ensures
            final(self).deep_view() == (WebPageInstantViewView {
                is_rtl,
                ..old(self).deep_view()
            }),
    {
        self.inner.is_rtl = is_rtl;
    }

    /// Stages the full-page flag, overwriting any earlier value.
    pub fn is_full(&mut self, is_full: bool)
        ensures
            final(self).deep_view() == (WebPageInstantViewView {
                is_full,
                ..old(self).deep_view()
            }),
    {
        self.inner.is_full = is_full;
    }
}

} // verus!
