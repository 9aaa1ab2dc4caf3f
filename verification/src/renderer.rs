use crate::commands::{spec_white, white, Color, Point, Scalar, SCALAR_ONE, SCALAR_ZERO};
use vstd::prelude::*;

verus! {

/// A texture, by the identifier that the embedding application gives it. Two
/// draws use the same texture exactly when they carry the same identifier.
pub type TextureId = u64;

/// One corner of a triangle as the vertex shader receives it.
#[derive(Clone, Copy)]
pub struct Vertex {
    pub position: Point,
    pub color: Color,
    pub tex_coords: Point,
}

/// A run of consecutive vertices, `start..end`, drawn with one texture in
/// one draw call.
#[derive(Clone, Copy)]
pub struct DrawBatch {
    pub texture: TextureId,
    pub start: u32,
    pub end: u32,
}

/// One character to lay out and draw, with the colour and font family that
/// were in effect when it was drawn.
#[derive(Clone)]
pub struct TextDraw {
    pub character: char,
    pub pos: Point,
    pub size: Scalar,
    pub color: Color,
    pub family: String,
}

/// The drawing state of the renderer between two frames: the colour, texture
/// and font in effect, the triangle vertices drawn so far with the batches
/// that group them by texture, the characters to draw, and how many vertices
/// the vertex buffer on the GPU holds.
pub struct Renderer {
    vertex_capacity: usize,
    white_texture: TextureId,
    current_color: Color,
    current_texture: TextureId,
    current_font_family: String,
    vertices: Vec<Vertex>,
    vertex_textures: Ghost<Seq<TextureId>>,
    batches: Vec<DrawBatch>,
    text_draws: Vec<TextDraw>,
    pictures: PictureCache,
}

/// A picture loaded from a file, and the texture made from it.
pub struct Picture {
    pub path: String,
    pub texture: TextureId,
}

/// The pictures loaded so far, by path.
pub struct PictureCache {
    pictures: Vec<Picture>,
}

impl View for PictureCache {
    type V = Map<Seq<char>, TextureId>;

    closed spec fn view(&self) -> Map<Seq<char>, TextureId> {
        picture_map(self.pictures@)
    }
}

impl PictureCache {
    /// No path occurs twice.
    #[verifier::type_invariant]
    spec fn paths_distinct(self) -> bool {
        distinct_paths(self.pictures@)
    }

    /// No picture loaded.
    pub fn new() -> (c: PictureCache)
        ensures
            c@ == Map::<Seq<char>, TextureId>::empty(),
    {
        PictureCache { pictures: Vec::new() }
    }

    /// The texture of the picture at `path`, if there is one.
    pub fn get(&self, path: &str) -> (t: Option<TextureId>)
        ensures
            t == (if self@.dom().contains(path@) {
                Some(self@[path@])
            } else {
                None
            }),
    {
        proof {
            use_type_invariant(self);
        }
        let key = path.to_string();
        proof {
            broadcast use vstd::string::to_string_from_display_ensures_for_str;
        }
        let n: usize = self.pictures.len();
        let mut i: usize = 0;
        while i < n
            invariant
                n == self.pictures@.len(),
                i <= n,
                key@ == path@,
                distinct_paths(self.pictures@),
                forall|j: int| 0 <= j < i ==> #[trigger] self.pictures@[j].path@ != path@,
            decreases n - i,
        {
            if self.pictures[i].path == key {
                proof {
                    lemma_picture_map_value(self.pictures@, i as int);
                }
                return Some(self.pictures[i].texture);
            }
            i = i + 1;
        }
        proof {
            lemma_picture_map_dom(self.pictures@, path@);
        }
        None
    }

    /// Records the texture made from the picture at `path`, which has none
    /// yet.
    pub fn insert(&mut self, path: &str, t: TextureId)
        requires
            !old(self)@.dom().contains(path@),
        ensures
            final(self)@ == old(self)@.insert(path@, t),
    {
        proof {
            use_type_invariant(&*self);
        }
        let key = path.to_string();
        proof {
            broadcast use vstd::string::to_string_from_display_ensures_for_str;
            lemma_picture_map_dom(self.pictures@, path@);
            let ps = self.pictures@.push(Picture { path: key, texture: t });
            assert(ps.drop_last() =~= self.pictures@);
            assert(distinct_paths(ps)) by {
                assert forall|i: int, j: int| 0 <= i < j < ps.len() implies
                    #[trigger] ps[i].path@ != #[trigger] ps[j].path@ by {
                    if j == ps.len() - 1 {
                        assert(ps[i] == self.pictures@[i]);
                    }
                }
            }
        }
        let mut pictures = Vec::new();
        std::mem::swap(&mut pictures, &mut self.pictures);
        pictures.push(Picture { path: key, texture: t });
        self.pictures = pictures;
    }
}

/// The textures of the pictures in `ps`, by path.
pub open spec fn picture_map(ps: Seq<Picture>) -> Map<Seq<char>, TextureId>
    decreases ps.len(),
{
    if ps.len() == 0 {
        Map::empty()
    } else {
        picture_map(ps.drop_last()).insert(ps.last().path@, ps.last().texture)
    }
}

/// No path occurs twice among the pictures.
pub open spec fn distinct_paths(ps: Seq<Picture>) -> bool {
    forall|i: int, j: int| 0 <= i < j < ps.len() ==> #[trigger] ps[i].path@ != #[trigger] ps[j].path@
}

/// What a renderer is, seen from outside. `textures[i]` is the texture that
/// was in effect when `vertices[i]` was drawn.
pub struct RendererView {
    pub capacity: nat,
    pub white: TextureId,
    pub color: Color,
    pub texture: TextureId,
    pub font: Seq<char>,
    pub vertices: Seq<Vertex>,
    pub textures: Seq<TextureId>,
    pub batches: Seq<DrawBatch>,
    pub texts: Seq<TextDraw>,
    pub pictures: Map<Seq<char>, TextureId>,
}

/// The texture coordinates of the three corners of every triangle.
pub open spec fn corner_uv(i: int) -> Point {
    if i == 0 {
        [SCALAR_ZERO, SCALAR_ZERO]
    } else if i == 1 {
        [SCALAR_ZERO, SCALAR_ONE]
    } else {
        [SCALAR_ONE, SCALAR_ONE]
    }
}

/// The batches after a draw with texture `tex` starts when `n` vertices are
/// drawn: the last batch goes on if it has that texture, else a new, empty
/// one begins at `n`.
pub open spec fn open_batch(bs: Seq<DrawBatch>, tex: TextureId, n: int) -> Seq<DrawBatch> {
    if bs.len() > 0 && bs.last().texture == tex {
        bs
    } else {
        bs.push(DrawBatch { texture: tex, start: n as u32, end: n as u32 })
    }
}

/// The batches after `k` more vertices join the last one.
pub open spec fn extend_last(bs: Seq<DrawBatch>, k: int) -> Seq<DrawBatch> {
    bs.update(bs.len() - 1, DrawBatch { end: (bs.last().end + k) as u32, ..bs.last() })
}

/// The capacity that a vertex buffer of `cap` vertices grows to when `len`
/// vertices no longer fit: the larger of `len` and twice `cap`.
pub open spec fn grown_capacity(len: nat, cap: nat) -> nat {
    if len > 2 * cap {
        len
    } else {
        2 * cap
    }
}

impl RendererView {
    /// The batches cover the vertices, in order and without gaps; each holds
    /// whole triangles drawn with its texture; no two neighbours share a
    /// texture, so every change of texture, and only that, starts a batch.
    pub open spec fn wf(self) -> bool {
        &&& self.vertices.len() <= u32::MAX
        &&& self.textures.len() == self.vertices.len()
        &&& (self.batches.len() == 0 <==> self.vertices.len() == 0)
        &&& (self.batches.len() > 0 ==> self.batches[0].start == 0 && self.batches.last().end
            == self.vertices.len())
        &&& forall|i: int|
            0 <= i < self.batches.len() ==> {
                &&& #[trigger] self.batches[i].start < self.batches[i].end
                &&& (self.batches[i].end - self.batches[i].start) % 3 == 0
            }
        &&& forall|i: int|
            0 <= i < self.batches.len() - 1 ==> #[trigger] self.batches[i].end == self.batches[i
                + 1].start
        &&& forall|i: int|
            0 <= i < self.batches.len() - 1 ==> #[trigger] self.batches[i].texture
                != self.batches[i + 1].texture
        &&& forall|i: int, j: int|
            0 <= i < self.batches.len() && self.batches[i].start <= j < self.batches[i].end
                ==> #[trigger] self.textures[j] == #[trigger] self.batches[i].texture
    }

    /// A filled triangle with corners `p1`, `p2`, `p3` drawn in the colour
    /// and with the texture in effect.
    pub open spec fn add_triangle(self, p1: Point, p2: Point, p3: Point) -> RendererView {
        let n: int = self.vertices.len() as int;
        RendererView {
            vertices: self.vertices.push(
                Vertex { position: p1, color: self.color, tex_coords: corner_uv(0) },
            ).push(Vertex { position: p2, color: self.color, tex_coords: corner_uv(1) }).push(
                Vertex { position: p3, color: self.color, tex_coords: corner_uv(2) },
            ),
            textures: self.textures.push(self.texture).push(self.texture).push(self.texture),
            batches: extend_last(open_batch(self.batches, self.texture, n), 3),
            ..self
        }
    }

    /// The frame has been submitted: nothing drawn is left.
    pub open spec fn cleared(self) -> RendererView {
        RendererView {
            vertices: Seq::<Vertex>::empty(),
            textures: Seq::<TextureId>::empty(),
            batches: Seq::<DrawBatch>::empty(),
            texts: Seq::<TextDraw>::empty(),
            ..self
        }
    }
}

impl View for Renderer {
    type V = RendererView;

    closed spec fn view(&self) -> RendererView {
        RendererView {
            capacity: self.vertex_capacity as nat,
            white: self.white_texture,
            color: self.current_color,
            texture: self.current_texture,
            font: self.current_font_family@,
            vertices: self.vertices@,
            textures: self.vertex_textures@,
            batches: self.batches@,
            texts: self.text_draws@,
            pictures: self.pictures@,
        }
    }
}


impl Renderer {
    /// A renderer whose blank texture is `white_texture`: drawing in white
    /// with that texture and the "sans-serif" font, with room for 1024
    /// vertices, and nothing drawn.
    pub fn new(white_texture: TextureId) -> (r: Renderer)
        ensures
            r@ == (RendererView {
                capacity: 1024,
                white: white_texture,
                color: spec_white(),
                texture: white_texture,
                font: "sans-serif"@,
                vertices: Seq::<Vertex>::empty(),
                textures: Seq::<TextureId>::empty(),
                batches: Seq::<DrawBatch>::empty(),
                texts: Seq::<TextDraw>::empty(),
                pictures: Map::<Seq<char>, TextureId>::empty(),
            }),
            r@.wf(),
    {
        let vertex_capacity: usize = 1024;
        let font = "sans-serif".to_string();
        proof {
            broadcast use vstd::string::to_string_from_display_ensures_for_str;
        }
        Renderer {
            vertex_capacity,
            white_texture,
            current_color: white(),
            current_texture: white_texture,
            current_font_family: font,
            vertices: Vec::with_capacity(vertex_capacity),
            vertex_textures: Ghost(Seq::empty()),
            batches: Vec::new(),
            text_draws: Vec::new(),
            pictures: PictureCache::new(),
        }
    }


    /// Later triangles are drawn in `color` with the blank texture.
    pub fn set_color(&mut self, color: Color)
        ensures
            final(self)@ == (RendererView { color, texture: old(self)@.white, ..old(self)@ }),
    {
        self.current_color = color;
        self.current_texture = self.white_texture;
    }

    /// The texture of the picture at `path`, if it was loaded before.
    pub fn picture(&self, path: &str) -> (t: Option<TextureId>)
        ensures
            t == (if self@.pictures.dom().contains(path@) {
                Some(self@.pictures[path@])
            } else {
                None
            }),
    {
        self.pictures.get(path)
    }

    /// Later triangles show the picture at `path`, untinted (in white). A
    /// picture loaded before is reused and `loaded` is not looked at;
    /// otherwise `loaded` is the texture made from the file, or `None` when
    /// the file could not be loaded, in which case nothing changes and the
    /// answer is `false`.
    pub fn set_picture(&mut self, path: &str, loaded: Option<TextureId>) -> (shown: bool)
        ensures
            old(self)@.pictures.dom().contains(path@) ==> shown && final(self)@ == (RendererView {
                color: spec_white(),
                texture: old(self)@.pictures[path@],
                ..old(self)@
            }),
            !old(self)@.pictures.dom().contains(path@) ==> match loaded {
                Some(t) => shown && final(self)@ == (RendererView {
                    color: spec_white(),
                    texture: t,
                    pictures: old(self)@.pictures.insert(path@, t),
                    ..old(self)@
                }),
                None => !shown && final(self)@ == old(self)@,
            },
    {
        match self.pictures.get(path) {
            Some(t) => {
                self.current_texture = t;
                self.current_color = white();
                true
            },
            None => match loaded {
                Some(t) => {
                    self.pictures.insert(path, t);
                    self.current_texture = t;
                    self.current_color = white();
                    true
                },
                None => false,
            },
        }
    }

    /// Later characters are laid out in the font family `family`.
    pub fn set_font(&mut self, family: &str)
        ensures
            final(self)@ == (RendererView { font: family@, ..old(self)@ }),
    {
        let f = family.to_string();
        proof {
            broadcast use vstd::string::to_string_from_display_ensures_for_str;
        }
        self.current_font_family = f;
    }

    /// Makes sure the last batch has the texture in effect, starting a new,
    /// empty batch at the end of the vertices when it does not.
    fn ensure_batch(&mut self)
        requires
            old(self)@.wf(),
        ensures
            final(self)@ == (RendererView {
                batches: open_batch(old(self)@.batches, old(self)@.texture, old(self)@.vertices.len() as int),
                ..old(self)@
            }),
            final(self).batches.len() > 0,
    {
        let texture_changed = match self.batches.last() {
            Some(last) => last.texture != self.current_texture,
            None => true,
        };
        if texture_changed {
            let start: u32 = self.vertices.len() as u32;
            self.batches.push(DrawBatch { texture: self.current_texture, start, end: start });
        }
    }

    /// Draws a filled triangle with corners `p1`, `p2`, `p3` in the colour
    /// and with the texture in effect. It joins the last batch when that batch
    /// has the same texture, and starts a new batch otherwise.
    pub fn draw_triangle(&mut self, p1: Point, p2: Point, p3: Point)
        requires
            old(self)@.wf(),
            old(self)@.vertices.len() + 3 <= u32::MAX,
        ensures
            final(self)@ == old(self)@.add_triangle(p1, p2, p3),
            final(self)@.wf(),
            final(self)@.vertices.len() == old(self)@.vertices.len() + 3,
            forall|i: int|
                old(self)@.vertices.len() <= i < final(self)@.vertices.len()
                    ==> #[trigger] final(self)@.vertices[i].color == old(self)@.color,
    {
        proof {
            lemma_add_triangle_wf(self@, p1, p2, p3);
        }
        self.ensure_batch();
        let color = self.current_color;
        let uv0: Point = [SCALAR_ZERO, SCALAR_ZERO];
        let uv1: Point = [SCALAR_ZERO, SCALAR_ONE];
        let uv2: Point = [SCALAR_ONE, SCALAR_ONE];
        self.vertices.push(Vertex { position: p1, color, tex_coords: uv0 });
        self.vertices.push(Vertex { position: p2, color, tex_coords: uv1 });
        self.vertices.push(Vertex { position: p3, color, tex_coords: uv2 });
        let ghost tex: TextureId = self.current_texture;
        proof {
            self.vertex_textures@ = self.vertex_textures@.push(tex).push(tex).push(tex);
        }
        let last: usize = self.batches.len() - 1;
        let b = self.batches[last];
        self.batches.set(last, DrawBatch { end: b.end + 3, ..b });
    }

    /// Queues `character` to be drawn at `pos`, `size` pixels high, in the
    /// colour and font family in effect.
    pub fn draw_char(&mut self, character: char, pos: Point, size: Scalar)
        ensures
            final(self)@ == (RendererView {
                texts: old(self)@.texts.push(final(self)@.texts.last()),
                ..old(self)@
            }),
            final(self)@.texts.last().character == character,
            final(self)@.texts.last().pos == pos,
            final(self)@.texts.last().size == size,
            final(self)@.texts.last().color == old(self)@.color,
            final(self)@.texts.last().family@ == old(self)@.font,
    {
        let color = self.current_color;
        let family = self.current_font_family.clone();
        self.text_draws.push(TextDraw { character, pos, size, color, family });
    }

    /// Before a frame is rendered: when the vertices drawn no longer fit the
    /// vertex buffer, its capacity grows to the larger of the vertex count and
    /// twice the old capacity, and the answer is `true` (a larger buffer must
    /// be made). Otherwise nothing changes and the answer is `false`.
    pub fn reserve_vertex_buffer(&mut self) -> (grew: bool)
        requires
            old(self)@.vertices.len() > old(self)@.capacity ==> old(self)@.capacity * 2
                <= usize::MAX,
        ensures
            grew == (old(self)@.vertices.len() > old(self)@.capacity),
            grew ==> final(self)@ == (RendererView {
                capacity: grown_capacity(old(self)@.vertices.len(), old(self)@.capacity),
                ..old(self)@
            }),
            !grew ==> final(self)@ == old(self)@,
    {
        let len: usize = self.vertices.len();
        if len > self.vertex_capacity {
            let doubled: usize = self.vertex_capacity * 2;
            self.vertex_capacity = if len > doubled { len } else { doubled };
            true
        } else {
            false
        }
    }

    /// After a frame is rendered: the vertices, batches and characters of
    /// that frame are dropped; the colour, texture, font and buffer capacity
    /// stay.
    pub fn clear_frame(&mut self)
        ensures
            final(self)@ == old(self)@.cleared(),
            final(self)@.wf(),
            final(self)@.vertices.len() == 0 && final(self)@.batches.len() == 0
                && final(self)@.texts.len() == 0,
            final(self)@.white == old(self)@.white && final(self)@.texture == old(self)@.texture
                && final(self)@.color == old(self)@.color && final(self)@.font == old(self)@.font,
            final(self)@.capacity == old(self)@.capacity && final(self)@.pictures
                == old(self)@.pictures,
    {
        self.vertices.clear();
        self.batches.clear();
        self.text_draws.clear();
        proof {
            self.vertex_textures@ = Seq::empty();
        }
    }

    /// The vertices drawn in this frame.
    pub fn vertices(&self) -> (vs: &Vec<Vertex>)
        ensures
            vs@ == self@.vertices,
    {
        &self.vertices
    }

    /// The batches of this frame.
    pub fn batches(&self) -> (bs: &Vec<DrawBatch>)
        ensures
            bs@ == self@.batches,
    {
        &self.batches
    }

    /// The characters queued in this frame.
    pub fn text_draws(&self) -> (ts: &Vec<TextDraw>)
        ensures
            ts@ == self@.texts,
    {
        &self.text_draws
    }

    /// How many vertices the vertex buffer holds.
    pub fn vertex_capacity(&self) -> (cap: usize)
        ensures
            cap == self@.capacity,
    {
        self.vertex_capacity
    }

    /// The colour in effect.
    pub fn current_color(&self) -> (c: Color)
        ensures
            c == self@.color,
    {
        self.current_color
    }

    /// The texture in effect.
    pub fn current_texture(&self) -> (t: TextureId)
        ensures
            t == self@.texture,
    {
        self.current_texture
    }

    /// The font family in effect.
    pub fn font_family(&self) -> (f: &str)
        ensures
            f@ == self@.font,
    {
        self.current_font_family.as_str()
    }
}

/// Drawing a triangle keeps the batches well formed.
pub proof fn lemma_add_triangle_wf(v: RendererView, p1: Point, p2: Point, p3: Point)
    requires
        v.wf(),
        v.vertices.len() + 3 <= u32::MAX,
    ensures
        v.add_triangle(p1, p2, p3).wf(),
{
    let w = v.add_triangle(p1, p2, p3);
    let n: int = v.vertices.len() as int;
    if v.batches.len() > 0 && v.batches.last().texture == v.texture {
        assert forall|i: int, j: int|
            0 <= i < w.batches.len() && w.batches[i].start <= j < w.batches[i].end
                implies #[trigger] w.textures[j] == #[trigger] w.batches[i].texture by {
            if i < w.batches.len() - 1 {
                assert(v.batches[i].end <= v.batches[i + 1].start) by {
                    assert(v.batches[i].end == v.batches[i + 1].start);
                }
                lemma_batch_ends_below_last(v, i);
            } else if j < n {
                assert(v.batches[i].start <= j < v.batches[i].end);
            }
        }
    } else {
        assert forall|i: int, j: int|
            0 <= i < w.batches.len() && w.batches[i].start <= j < w.batches[i].end
                implies #[trigger] w.textures[j] == #[trigger] w.batches[i].texture by {
            if i < w.batches.len() - 1 {
                assert(w.batches[i] == v.batches[i]);
                lemma_batch_ends_below_last(v, i);
            }
        }
    }
}

/// In well-formed batches every batch ends at or before the last one ends.
proof fn lemma_batch_ends_below_last(v: RendererView, i: int)
    requires
        v.wf(),
        0 <= i < v.batches.len(),
    ensures
        v.batches[i].end <= v.vertices.len(),
    decreases v.batches.len() - i,
{
    if i < v.batches.len() - 1 {
        assert(v.batches[i].end == v.batches[i + 1].start);
        assert(v.batches[i + 1].start < v.batches[i + 1].end);
        lemma_batch_ends_below_last(v, i + 1);
    }
}

/// A path has a texture exactly when some loaded picture has that path.
pub proof fn lemma_picture_map_dom(ps: Seq<Picture>, path: Seq<char>)
    ensures
        picture_map(ps).dom().contains(path) <==> exists|j: int|
            0 <= j < ps.len() && #[trigger] ps[j].path@ == path,
    decreases ps.len(),
{
    if ps.len() > 0 {
        let init = ps.drop_last();
        lemma_picture_map_dom(init, path);
        if picture_map(ps).dom().contains(path) && ps.last().path@ != path {
            let j = choose|j: int| 0 <= j < init.len() && #[trigger] init[j].path@ == path;
            assert(ps[j] == init[j]);
        }
        if exists|j: int| 0 <= j < ps.len() && #[trigger] ps[j].path@ == path {
            let j = choose|j: int| 0 <= j < ps.len() && #[trigger] ps[j].path@ == path;
            if j < ps.len() - 1 {
                assert(init[j] == ps[j]);
            }
        }
    }
}

/// With distinct paths, the texture recorded for a picture's path is that
/// picture's texture.
pub proof fn lemma_picture_map_value(ps: Seq<Picture>, j: int)
    requires
        distinct_paths(ps),
        0 <= j < ps.len(),
    ensures
        picture_map(ps).dom().contains(ps[j].path@),
        picture_map(ps)[ps[j].path@] == ps[j].texture,
    decreases ps.len(),
{
    let init = ps.drop_last();
    if j < ps.len() - 1 {
        assert(init[j] == ps[j]);
        assert(distinct_paths(init)) by {
            assert forall|a: int, b: int| 0 <= a < b < init.len() implies
                #[trigger] init[a].path@ != #[trigger] init[b].path@ by {
                assert(init[a] == ps[a] && init[b] == ps[b]);
            }
        }
        lemma_picture_map_value(init, j);
        assert(ps[j].path@ != ps.last().path@);
    }
}

/// A grown vertex buffer holds every vertex drawn and at least twice as many
/// as before, and is no larger than the greater of the two.
pub proof fn lemma_grown_capacity_fits(len: nat, cap: nat)
    requires
        len > cap,
    ensures
        grown_capacity(len, cap) >= len,
        grown_capacity(len, cap) > cap,
        grown_capacity(len, cap) >= 2 * cap,
        grown_capacity(len, cap) == len || grown_capacity(len, cap) == 2 * cap,
{
}

/// Triangles drawn one after another with the same texture share one batch,
/// however their colours differ; a triangle drawn after the texture changed
/// starts a new batch with the new texture.
pub proof fn lemma_batches_follow_texture(
    v: RendererView,
    p1: Point,
    p2: Point,
    p3: Point,
    color: Color,
)
    requires
        v.wf(),
        v.vertices.len() + 6 <= u32::MAX,
    ensures
        ({
            let w = v.add_triangle(p1, p2, p3);
            let w2 = RendererView { color, ..w };
            w2.add_triangle(p1, p2, p3).batches.len() == w.batches.len()
        }),
        v.batches.len() > 0 && v.batches.last().texture != v.texture ==> {
            &&& v.add_triangle(p1, p2, p3).batches.len() == v.batches.len() + 1
            &&& v.add_triangle(p1, p2, p3).batches.last().texture == v.texture
        },
{
    lemma_add_triangle_wf(v, p1, p2, p3);
}

/// Every vertex drawn lies in a batch whose texture is the one that was in
/// effect when the vertex was drawn; the batch draws it with that texture.
pub proof fn lemma_every_vertex_batched(v: RendererView, j: int)
    requires
        v.wf(),
        0 <= j < v.vertices.len(),
    ensures
        exists|i: int|
            0 <= i < v.batches.len() && v.batches[i].start <= j < v.batches[i].end
                && v.batches[i].texture == v.textures[j],
{
    lemma_vertex_in_batch_from(v, j, 0);
}

/// A vertex at or past the start of batch `k` lies in batch `k` or a later one.
proof fn lemma_vertex_in_batch_from(v: RendererView, j: int, k: int)
    requires
        v.wf(),
        0 <= j < v.vertices.len(),
        0 <= k < v.batches.len(),
        v.batches[k].start <= j,
    ensures
        exists|i: int|
            0 <= i < v.batches.len() && v.batches[i].start <= j < v.batches[i].end
                && v.batches[i].texture == v.textures[j],
    decreases v.batches.len() - k,
{
    if j < v.batches[k].end {
        assert(v.textures[j] == v.batches[k].texture);
    } else if k == v.batches.len() - 1 {
        assert(false);
    } else {
        assert(v.batches[k].end == v.batches[k + 1].start);
        lemma_vertex_in_batch_from(v, j, k + 1);
    }
}

/// After a frame is cleared nothing is drawn and the batches are trivially
/// well formed; the colour, texture, font and capacity carry over.
pub proof fn lemma_cleared_keeps_state(v: RendererView)
    ensures
        v.cleared().wf(),
        v.cleared().vertices.len() == 0,
        v.cleared().textures.len() == 0,
        v.cleared().batches.len() == 0,
        v.cleared().texts.len() == 0,
        v.cleared().color == v.color,
        v.cleared().texture == v.texture,
        v.cleared().white == v.white,
        v.cleared().font == v.font,
        v.cleared().capacity == v.capacity,
        v.cleared().pictures == v.pictures,
{
}

/// A triangle adds three vertices after the ones drawn before, which stay as
/// they were: its corners in order, each in the colour in effect, with the
/// texture coordinates (0,0), (0,1), (1,1) and the texture in effect. It joins
/// the last batch, growing it by three, when that batch has the texture in
/// effect, and otherwise opens a batch of its own. Nothing else changes.
pub proof fn lemma_add_triangle_effect(v: RendererView, p1: Point, p2: Point, p3: Point)
    requires
        v.wf(),
        v.vertices.len() + 3 <= u32::MAX,
    ensures
        ({
            let w = v.add_triangle(p1, p2, p3);
            let n = v.vertices.len() as int;
            &&& w.vertices.len() == n + 3
            &&& w.textures.len() == n + 3
            &&& forall|i: int| 0 <= i < n ==> #[trigger] w.vertices[i] == v.vertices[i]
                && w.textures[i] == v.textures[i]
            &&& w.vertices[n] == Vertex {
                position: p1,
                color: v.color,
                tex_coords: [SCALAR_ZERO, SCALAR_ZERO],
            }
            &&& w.vertices[n + 1] == Vertex {
                position: p2,
                color: v.color,
                tex_coords: [SCALAR_ZERO, SCALAR_ONE],
            }
            &&& w.vertices[n + 2] == Vertex {
                position: p3,
                color: v.color,
                tex_coords: [SCALAR_ONE, SCALAR_ONE],
            }
            &&& w.textures[n] == v.texture && w.textures[n + 1] == v.texture && w.textures[n + 2]
                == v.texture
            &&& if v.batches.len() > 0 && v.batches.last().texture == v.texture {
                &&& w.batches.len() == v.batches.len()
                &&& forall|i: int|
                    0 <= i < v.batches.len() - 1 ==> #[trigger] w.batches[i] == v.batches[i]
                &&& w.batches.last() == DrawBatch {
                    texture: v.texture,
                    start: v.batches.last().start,
                    end: (n + 3) as u32,
                }
            } else {
                &&& w.batches.len() == v.batches.len() + 1
                &&& forall|i: int|
                    0 <= i < v.batches.len() ==> #[trigger] w.batches[i] == v.batches[i]
                &&& w.batches.last() == DrawBatch {
                    texture: v.texture,
                    start: n as u32,
                    end: (n + 3) as u32,
                }
            }
            &&& w.color == v.color && w.texture == v.texture && w.white == v.white
            &&& w.font == v.font && w.capacity == v.capacity && w.texts == v.texts
            &&& w.pictures == v.pictures
        }),
{
}

} // verus!
