//! The messages that cross the bridge, and how the elements of a group
//! event become ordered segments.
use vstd::prelude::*;

verus! {

/// One element of a group event, as far as the bridge reads it.
#[derive(Debug, Clone)]
pub enum QQElement {
    Text(String),
    /// A built-in face, by name.
    Face(String),
    /// A sticker of the market, by name.
    MarketFace(String),
    /// An image posted in the group, by its download URL.
    GroupImage(String),
    /// Any element that the bridge does not carry (mentions, dice, cards, ...).
    Unsupported,
}

pub enum ElementView {
    Text(Seq<char>),
    Face(Seq<char>),
    MarketFace(Seq<char>),
    GroupImage(Seq<char>),
    Unsupported,
}

impl View for QQElement {
    type V = ElementView;

    open spec fn view(&self) -> ElementView {
        match self {
            QQElement::Text(t) => ElementView::Text(t@),
            QQElement::Face(n) => ElementView::Face(n@),
            QQElement::MarketFace(n) => ElementView::MarketFace(n@),
            QQElement::GroupImage(u) => ElementView::GroupImage(u@),
            QQElement::Unsupported => ElementView::Unsupported,
        }
    }
}

/// One segment of a relayed message: a run of text, or one image (by URL).
#[derive(Debug, Clone)]
pub enum QQMessageType {
    Text(String),
    Img(String),
}

pub enum SegmentView {
    Text(Seq<char>),
    Img(Seq<char>),
}

impl View for QQMessageType {
    type V = SegmentView;

    open spec fn view(&self) -> SegmentView {
        match self {
            QQMessageType::Text(t) => SegmentView::Text(t@),
            QQMessageType::Img(u) => SegmentView::Img(u@),
        }
    }
}

pub open spec fn segments_view(v: Seq<QQMessageType>) -> Seq<SegmentView> {
    v.map_values(|s: QQMessageType| s@)
}

pub open spec fn elements_view(v: Seq<QQElement>) -> Seq<ElementView> {
    v.map_values(|e: QQElement| e@)
}

/// A message from a group, on its way to the chat network.
#[derive(Debug, Clone)]
pub struct QQMessage {
    pub group_id: i64,
    pub user_id: i64,
    pub display_name: String,
    pub segments: Vec<QQMessageType>,
}

/// What a message from the chat network carries.
#[derive(Debug, Clone)]
pub enum MatrixMessageType {
    Text(String),
    Img(Vec<u8>),
}

/// A message from the chat network, on its way to a group.
#[derive(Debug, Clone)]
pub struct MatrixMessage {
    pub group_id: i64,
    pub username: String,
    pub content: MatrixMessageType,
}

pub open spec fn face_text(name: Seq<char>) -> Seq<char> {
    seq!['['] + name + seq![']']
}

pub open spec fn market_face_text(name: Seq<char>) -> Seq<char> {
    seq!['[', '表', '情', ':'] + name + seq![']']
}

/// The text that an element adds to the current run of text, if it is
/// textual.
pub open spec fn element_text(e: ElementView) -> Option<Seq<char>> {
    match e {
        ElementView::Text(t) => Some(t),
        ElementView::Face(n) => Some(face_text(n)),
        ElementView::MarketFace(n) => Some(market_face_text(n)),
        _ => None,
    }
}

/// The segments closed so far, and the run of text still open, after the
/// elements `es`.
pub open spec fn fold_elements(es: Seq<ElementView>) -> (Seq<SegmentView>, Seq<char>)
    decreases es.len(),
{
    if es.len() == 0 {
        (Seq::empty(), Seq::empty())
    } else {
        let (segs, pending) = fold_elements(es.drop_last());
        match es.last() {
            ElementView::GroupImage(url) => (
                close_run(segs, pending).push(SegmentView::Img(url)),
                Seq::empty(),
            ),
            ElementView::Unsupported => (segs, pending),
            e => (segs, pending + element_text(e).unwrap()),
        }
    }
}

/// Closes a run of text: a non-empty run becomes a text segment.
pub open spec fn close_run(segs: Seq<SegmentView>, pending: Seq<char>) -> Seq<SegmentView> {
    if pending.len() > 0 {
        segs.push(SegmentView::Text(pending))
    } else {
        segs
    }
}

/// The segments of a group event: consecutive textual elements merge into one
/// text segment, each image is a segment of its own, and unsupported elements
/// are dropped without breaking a run.
pub open spec fn normalize_spec(es: Seq<ElementView>) -> Seq<SegmentView> {
    let (segs, pending) = fold_elements(es);
    close_run(segs, pending)
}

/// An event with no element that the bridge carries yields no segment: the
/// open run stays empty and no segment is closed.
pub proof fn lemma_unsupported_only_yields_nothing(es: Seq<ElementView>)
    requires
        forall|i: int| 0 <= i < es.len() ==> #[trigger] es[i] is Unsupported,
    ensures
        fold_elements(es) == (Seq::<SegmentView>::empty(), Seq::<char>::empty()),
        normalize_spec(es).len() == 0,
    decreases es.len(),
{
    if es.len() > 0 {
        let prev = es.drop_last();
        assert forall|i: int| 0 <= i < prev.len() implies #[trigger] prev[i] is Unsupported by {
            assert(prev[i] == es[i]);
        }
        lemma_unsupported_only_yields_nothing(prev);
        assert(es.last() is Unsupported);
    }
}

fn append_element_text(s: &mut String, e: &QQElement)
    requires
        element_text(e@) is Some,
    ensures
        final(s)@ == old(s)@ + element_text(e@).unwrap(),
{
    proof {
        reveal_strlit("[");
        reveal_strlit("]");
        reveal_strlit("[表情:");
    }
    match e {
        QQElement::Text(t) => {
            s.append(t.as_str());
        },
        QQElement::Face(name) => {
            s.append("[");
            s.append(name.as_str());
            s.append("]");
            assert(final(s)@ =~= old(s)@ + face_text(name@));
        },
        QQElement::MarketFace(name) => {
            s.append("[表情:");
            s.append(name.as_str());
            s.append("]");
            assert(final(s)@ =~= old(s)@ + market_face_text(name@));
        },
        _ => {},
    }
}

/// Turns the elements of one group event into its ordered segments.
pub fn normalize_elements(elements: &Vec<QQElement>) -> (r: Vec<QQMessageType>)
    ensures
        segments_view(r@) == normalize_spec(elements_view(elements@)),
{
    let mut text_msg = String::new();
    let mut msg_send: Vec<QQMessageType> = Vec::new();
    let ghost es = elements_view(elements@);
    let mut i: usize = 0;
    while i < elements.len()
        invariant
            i <= elements@.len(),
            es == elements_view(elements@),
            (segments_view(msg_send@), text_msg@) == fold_elements(es.subrange(0, i as int)),
        decreases elements@.len() - i,
    {
        let ghost prev = es.subrange(0, i as int);
        let ghost next = es.subrange(0, i + 1);
        proof {
            assert(next.drop_last() =~= prev);
            assert(next.last() == elements@[i as int]@);
        }
        let e = &elements[i];
        match e {
            QQElement::GroupImage(url) => {
                if text_msg.unicode_len() > 0 {
                    msg_send.push(QQMessageType::Text(text_msg));
                    text_msg = String::new();
                }
                msg_send.push(QQMessageType::Img(url.clone()));
                proof {
                    let (segs, pending) = fold_elements(prev);
                    assert(segments_view(msg_send@) =~= close_run(segs, pending).push(
                        SegmentView::Img(url@),
                    ));
                }
            },
            QQElement::Unsupported => {},
            _ => {
                append_element_text(&mut text_msg, e);
            },
        }
        i = i + 1;
    }
    proof {
        assert(es.subrange(0, i as int) =~= es);
    }
    if text_msg.unicode_len() > 0 {
        msg_send.push(QQMessageType::Text(text_msg));
    }
    proof {
        let (segs, pending) = fold_elements(es);
        assert(segments_view(msg_send@) =~= close_run(segs, pending));
    }
    msg_send
}

} // verus!
