use crate::commands::{Color, DrawCmd};
use vstd::prelude::*;

verus! {

/// A text and the colour it is laid out in: the key of one cached layout.
pub type TextKey = (Seq<char>, Color);

/// The key of a text command; other commands have none.
pub open spec fn cmd_key(cmd: DrawCmd) -> Option<TextKey> {
    match cmd {
        DrawCmd::Text { text, color, .. } => Some((text@, color)),
        _ => None,
    }
}

/// Planning the layouts of `frame` against the cached `keys`: the keys after
/// the frame, and the positions of the text commands to lay out. A text
/// command is laid out when its text has no layout in its colour yet, neither
/// cached nor planned earlier in the same frame.
pub open spec fn planned(keys: Seq<TextKey>, frame: Seq<DrawCmd>) -> (Seq<TextKey>, Seq<usize>)
    decreases frame.len(),
{
    if frame.len() == 0 {
        (keys, Seq::empty())
    } else {
        let (k, idx) = planned(keys, frame.drop_last());
        match cmd_key(frame.last()) {
            Some(key) => if k.contains(key) {
                (k, idx)
            } else {
                (k.push(key), idx.push((frame.len() - 1) as usize))
            },
            None => (k, idx),
        }
    }
}

/// One cached layout: its text and colour.
pub struct Layout {
    pub text: String,
    pub color: Color,
}

/// The keys of the text layouts kept from frame to frame, in the order they
/// were made. The caller keeps the layouts themselves in the same order.
pub struct TextLayouts {
    layouts: Vec<Layout>,
}

impl View for TextLayouts {
    type V = Seq<TextKey>;

    closed spec fn view(&self) -> Seq<TextKey> {
        self.layouts@.map_values(|l: Layout| (l.text@, l.color))
    }
}

/// Whether two colours are the same.
fn same_color(a: Color, b: Color) -> (same: bool)
    ensures
        same == (a == b),
{
    broadcast use vstd::array::group_array_axioms;

    let same = a[0] == b[0] && a[1] == b[1] && a[2] == b[2] && a[3] == b[3];
    if same {
        assert(a =~= b);
    }
    same
}

impl TextLayouts {
    /// No text is laid out twice in one colour.
    #[verifier::type_invariant]
    spec fn distinct(self) -> bool {
        self@.no_duplicates()
    }

    /// No layout kept.
    pub fn new() -> (t: TextLayouts)
        ensures
            t@ == Seq::<TextKey>::empty(),
    {
        let t = TextLayouts { layouts: Vec::new() };
        assert(t@ =~= Seq::<TextKey>::empty());
        t
    }

    /// Where the layout of `text` in `color` is kept, if there is one.
    pub fn slot(&self, text: &String, color: Color) -> (i: Option<usize>)
        ensures
            match i {
                Some(i) => i < self@.len() && self@[i as int] == (text@, color),
                None => !self@.contains((text@, color)),
            },
    {
        let n: usize = self.layouts.len();
        let mut i: usize = 0;
        while i < n
            invariant
                n == self.layouts@.len(),
                n == self@.len(),
                i <= n,
                forall|j: int| 0 <= j < i ==> #[trigger] self@[j] != (text@, color),
            decreases n - i,
        {
            let l = &self.layouts[i];
            if l.text == *text && same_color(l.color, color) {
                return Some(i);
            }
            assert(self@[i as int] == (l.text@, l.color));
            i = i + 1;
        }
        None
    }

    /// Keeps the layout of a text and colour that has none yet.
    fn add(&mut self, text: &String, color: Color)
        requires
            !old(self)@.contains((text@, color)),
        ensures
            final(self)@ == old(self)@.push((text@, color)),
    {
        proof {
            use_type_invariant(&*self);
        }
        let layout = Layout { text: text.clone(), color };
        let mut layouts = Vec::new();
        std::mem::swap(&mut layouts, &mut self.layouts);
        layouts.push(layout);
        proof {
            let old_keys = old(self)@;
            let new_keys = layouts@.map_values(|l: Layout| (l.text@, l.color));
            assert(new_keys =~= old_keys.push((text@, color)));
            assert(new_keys.no_duplicates()) by {
                assert forall|i: int, j: int|
                    0 <= i < new_keys.len() && 0 <= j < new_keys.len() && i != j implies new_keys[i]
                    != new_keys[j] by {
                    if i == new_keys.len() - 1 {
                        assert(new_keys[j] == old_keys[j]);
                        assert(old_keys.contains(old_keys[j]));
                    } else if j == new_keys.len() - 1 {
                        assert(new_keys[i] == old_keys[i]);
                    }
                }
            }
        }
        self.layouts = layouts;
    }

    /// Decides which text commands of `frame` must be laid out before the
    /// frame is drawn, and keeps their keys: each text command whose text
    /// has no layout in its colour, counting the layouts planned earlier in
    /// the same frame. The answer lists their positions in `frame`, in order;
    /// the new keys follow the old ones in the same order.
    pub fn plan(&mut self, frame: &Vec<DrawCmd>) -> (todo: Vec<usize>)
        ensures
            final(self)@ == planned(old(self)@, frame@).0,
            todo@ == planned(old(self)@, frame@).1,
            forall|j: int|
                #![trigger frame@[j]]
                0 <= j < frame@.len() ==> (frame@[j] matches DrawCmd::Text { text, color, .. }
                    ==> final(self)@.contains((text@, color))),
    {
        let mut todo: Vec<usize> = Vec::new();
        let n: usize = frame.len();
        let mut j: usize = 0;
        assert(frame@.take(0) =~= Seq::<DrawCmd>::empty());
        while j < n
            invariant
                n == frame@.len(),
                j <= n,
                self@ == planned(old(self)@, frame@.take(j as int)).0,
                todo@ == planned(old(self)@, frame@.take(j as int)).1,
            decreases n - j,
        {
            assert(frame@.take(j + 1).drop_last() =~= frame@.take(j as int));
            match &frame[j] {
                DrawCmd::Text { text, color, .. } => {
                    if self.slot(text, *color).is_none() {
                        self.add(text, *color);
                        todo.push(j);
                    }
                },
                _ => {},
            }
            j = j + 1;
        }
        assert(frame@.take(n as int) =~= frame@);
        proof {
            assert forall|j: int|
                #![trigger frame@[j]]
                0 <= j < frame@.len() implies (frame@[j] matches DrawCmd::Text { text, color, .. }
                    ==> self@.contains((text@, color))) by {
                lemma_planned_text_covered(old(self)@, frame@, j);
            }
        }
        todo
    }
}

/// After planning a frame, every text command of the frame has a layout in
/// its colour.
pub proof fn lemma_planned_covers(keys: Seq<TextKey>, frame: Seq<DrawCmd>, j: int)
    requires
        0 <= j < frame.len(),
        cmd_key(frame[j]) is Some,
    ensures
        planned(keys, frame).0.contains(cmd_key(frame[j])->0),
    decreases frame.len(),
{
    let init = frame.drop_last();
    lemma_planned_extends(keys, init);
    if j < frame.len() - 1 {
        assert(init[j] == frame[j]);
        lemma_planned_covers(keys, init, j);
        let k = planned(keys, init).0;
        let w = choose|w: int| 0 <= w < k.len() && k[w] == cmd_key(frame[j])->0;
        lemma_planned_extends(keys, frame);
        if let Some(key) = cmd_key(frame.last()) {
            if !k.contains(key) {
                assert(k.push(key)[w] == k[w]);
            }
        }
    } else {
        let k = planned(keys, init).0;
        let key = cmd_key(frame.last())->0;
        if !k.contains(key) {
            assert(k.push(key)[k.len() as int] == key);
        }
    }
}

/// Planning only adds keys, after the ones kept before: every layout kept
/// before stays where it was.
pub proof fn lemma_planned_extends(keys: Seq<TextKey>, frame: Seq<DrawCmd>)
    ensures
        planned(keys, frame).0.len() >= keys.len(),
        planned(keys, frame).0.subrange(0, keys.len() as int) == keys,
    decreases frame.len(),
{
    if frame.len() > 0 {
        lemma_planned_extends(keys, frame.drop_last());
        let k = planned(keys, frame.drop_last()).0;
        if let Some(key) = cmd_key(frame.last()) {
            if !k.contains(key) {
                assert(k.push(key).subrange(0, keys.len() as int) =~= k.subrange(
                    0,
                    keys.len() as int,
                ));
            }
        }
    }
}

/// Once a frame is planned, planning it again lays out nothing: a text drawn
/// again in the same colour reuses its layout.
pub proof fn lemma_replan_is_free(keys: Seq<TextKey>, frame: Seq<DrawCmd>)
    ensures
        planned(planned(keys, frame).0, frame).1.len() == 0,
        planned(planned(keys, frame).0, frame).0 == planned(keys, frame).0,
{
    lemma_replan_prefix(keys, frame, frame.len() as int);
    assert(frame.take(frame.len() as int) =~= frame);
}

/// Replanning any prefix of a planned frame adds nothing.
proof fn lemma_replan_prefix(keys: Seq<TextKey>, frame: Seq<DrawCmd>, m: int)
    requires
        0 <= m <= frame.len(),
    ensures
        planned(planned(keys, frame).0, frame.take(m)).1.len() == 0,
        planned(planned(keys, frame).0, frame.take(m)).0 == planned(keys, frame).0,
    decreases m,
{
    let all = planned(keys, frame).0;
    if m == 0 {
        assert(frame.take(0) =~= Seq::<DrawCmd>::empty());
    } else {
        lemma_replan_prefix(keys, frame, m - 1);
        assert(frame.take(m).drop_last() =~= frame.take(m - 1));
        assert(frame.take(m).last() == frame[m - 1]);
        if cmd_key(frame[m - 1]) is Some {
            lemma_planned_covers(keys, frame, m - 1);
        }
    }
}

/// After planning a frame, each text command of it has a layout keyed by
/// exactly its own text and its own full colour, alpha included.
pub proof fn lemma_planned_text_covered(keys: Seq<TextKey>, frame: Seq<DrawCmd>, j: int)
    requires
        0 <= j < frame.len(),
    ensures
        frame[j] matches DrawCmd::Text { text, color, .. } ==> planned(keys, frame).0.contains(
            (text@, color),
        ),
{
    if frame[j] is Text {
        lemma_planned_covers(keys, frame, j);
    }
}

/// Planning keeps the old keys in place and adds exactly one key per
/// position it answers: the text and full colour of the text command at
/// that position. Positions are increasing and within the frame.
pub proof fn lemma_planned_adds_frame_texts(keys: Seq<TextKey>, frame: Seq<DrawCmd>)
    requires
        frame.len() <= usize::MAX,
    ensures
        planned(keys, frame).0.len() == keys.len() + planned(keys, frame).1.len(),
        planned(keys, frame).0.subrange(0, keys.len() as int) == keys,
        forall|i: int|
            #![trigger planned(keys, frame).1[i]]
            0 <= i < planned(keys, frame).1.len() ==> {
                let p = planned(keys, frame).1[i] as int;
                &&& 0 <= p < frame.len()
                &&& frame[p] matches DrawCmd::Text { text, color, .. }
                &&& planned(keys, frame).0[keys.len() + i] == (text@, color)
            },
        forall|a: int, b: int|
            0 <= a < b < planned(keys, frame).1.len() ==> #[trigger] planned(keys, frame).1[a]
                < #[trigger] planned(keys, frame).1[b],
    decreases frame.len(),
{
    lemma_planned_extends(keys, frame);
    if frame.len() > 0 {
        let init = frame.drop_last();
        lemma_planned_adds_frame_texts(keys, init);
        let (k, idx) = planned(keys, init);
        let (k2, idx2) = planned(keys, frame);
        let grows = match cmd_key(frame.last()) {
            Some(key) => !k.contains(key),
            None => false,
        };
        if grows {
            let key = cmd_key(frame.last())->0;
            assert(k2 == k.push(key));
            assert(idx2 == idx.push((frame.len() - 1) as usize));
        } else {
            assert(k2 == k && idx2 == idx);
        }
        assert forall|i: int|
            #![trigger idx2[i]]
            0 <= i < idx2.len() implies {
                let p = idx2[i] as int;
                &&& 0 <= p < frame.len()
                &&& frame[p] matches DrawCmd::Text { text, color, .. }
                &&& k2[keys.len() + i] == (text@, color)
            } by {
            if i < idx.len() {
                assert(idx2[i] == idx[i]);
                assert(k2[keys.len() + i] == k[keys.len() + i]);
                assert(frame[idx[i] as int] == init[idx[i] as int]);
            } else {
                assert(idx2[i] as int == frame.len() - 1);
                assert(k2[keys.len() + i] == cmd_key(frame.last())->0);
            }
        }
        assert forall|a: int, b: int| 0 <= a < b < idx2.len() implies #[trigger] idx2[a]
            < #[trigger] idx2[b] by {
            assert(idx2[a] == idx[a]);
            if b < idx.len() {
                assert(idx2[b] == idx[b]);
            } else {
                let p = idx[a] as int;
                assert(0 <= p < init.len());
            }
        }
    }
}

/// Planning never makes a second layout for a text and colour that has one:
/// with no key twice before, there is no key twice after.
pub proof fn lemma_planned_fresh(keys: Seq<TextKey>, frame: Seq<DrawCmd>)
    requires
        keys.no_duplicates(),
    ensures
        planned(keys, frame).0.no_duplicates(),
    decreases frame.len(),
{
    if frame.len() > 0 {
        let init = frame.drop_last();
        lemma_planned_fresh(keys, init);
        let k = planned(keys, init).0;
        if let Some(key) = cmd_key(frame.last()) {
            if !k.contains(key) {
                let k2 = k.push(key);
                assert forall|i: int, j: int|
                    0 <= i < k2.len() && 0 <= j < k2.len() && i != j implies k2[i] != k2[j] by {
                    if i == k.len() as int {
                        assert(k2[j] == k[j]);
                        assert(k.contains(k[j]));
                    } else if j == k.len() as int {
                        assert(k2[i] == k[i]);
                        assert(k.contains(k[i]));
                    } else {
                        assert(k2[i] == k[i] && k2[j] == k[j]);
                    }
                }
            }
        }
    }
}

} // verus!
