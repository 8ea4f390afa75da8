//! Textures uploaded to OpenGL, a builder for them, and sets of textures bound
//! to consecutive texture units.
use vstd::prelude::*;
use crate::gl_enums;
use crate::gl_types::TextureTarget;

verus! {

/// The uniform name a texture gets from the text given for it: none for the
/// empty text.
pub open spec fn uniform_name_of(text: Seq<char>) -> Option<Seq<char>> {
    if text.len() == 0 {
        None
    } else {
        Some(text)
    }
}

/// The view of an optional string.
pub open spec fn opt_view(s: Option<String>) -> Option<Seq<char>> {
    match s {
        Some(t) => Some(t@),
        None => None,
    }
}

/// Bytes per pixel of an image uploaded with or without alpha (RGBA or RGB).
pub open spec fn pixel_channels(has_alpha: bool) -> int {
    if has_alpha { 4 } else { 3 }
}

/// The index of byte `c` of pixel (`y`, `x`) in rows of `width` pixels of
/// `ch` bytes each.
pub open spec fn byte_at(y: int, x: int, c: int, width: int, ch: int) -> int {
    (y * width + x) * ch + c
}

/// The row of the source image that row `y` of the uploaded image comes from.
pub open spec fn source_row(y: int, height: int, flip_vertical: bool) -> int {
    if flip_vertical { height - 1 - y } else { y }
}

/// The column of the source image that column `x` of the uploaded image comes from.
pub open spec fn source_col(x: int, width: int, flip_horizontal: bool) -> int {
    if flip_horizontal { width - 1 - x } else { x }
}

/// Where byte `k` of the uploaded image comes from in the source image, for
/// rows of `width` pixels of `ch` bytes each.
pub open spec fn source_byte(k: int, width: int, height: int, ch: int, flip_horizontal: bool, flip_vertical: bool) -> int {
    let p = k / ch;
    (source_row(p / width, height, flip_vertical) * width + source_col(p % width, width, flip_horizontal)) * ch + k % ch
}

/// Byte `k` of a `width` x `height` image of `ch` bytes per pixel lies in
/// pixel (`y`, `x`) at byte `c` of it, and every byte of any pixel lies in the image.
proof fn lemma_pixel_position(k: int, width: int, height: int, ch: int, sy: int, sx: int)
    requires
        0 <= k < width * height * ch,
        0 < ch,
        0 <= sy < height,
        0 <= sx < width,
    ensures
        0 < width,
        0 <= (k / ch) / width < height,
        0 <= (k / ch) % width < width,
        0 <= k % ch < ch,
        0 <= (sy * width + sx) * ch + k % ch < width * height * ch,
{
    assert(0 < width && 0 < height) by (nonlinear_arith)
        requires
            0 <= k < width * height * ch,
            0 < ch,
            0 <= sy < height,
            0 <= sx < width,
    ;
    let p = k / ch;
    let c = k % ch;
    vstd::arithmetic::div_mod::lemma_fundamental_div_mod(k, ch);
    vstd::arithmetic::div_mod::lemma_mod_bound(k, ch);
    assert(0 <= p < width * height) by (nonlinear_arith)
        requires
            k == ch * p + c,
            0 <= c < ch,
            0 <= k < width * height * ch,
            0 < ch,
    ;
    vstd::arithmetic::div_mod::lemma_fundamental_div_mod(p, width);
    vstd::arithmetic::div_mod::lemma_mod_bound(p, width);
    assert(0 <= p / width < height) by (nonlinear_arith)
        requires
            p == width * (p / width) + p % width,
            0 <= p % width < width,
            0 <= p < width * height,
            0 < width,
    ;
    assert(0 <= (sy * width + sx) * ch + c < width * height * ch) by (nonlinear_arith)
        requires
            0 <= sy < height,
            0 <= sx < width,
            0 <= c < ch,
            0 < width,
    ;
}

/// Byte `c` of pixel (`y`, `x`) is byte `(y * width + x) * ch + c` of the image.
proof fn lemma_byte_of_pixel(y: int, x: int, c: int, width: int, height: int, ch: int)
    requires
        0 <= y < height,
        0 <= x < width,
        0 <= c < ch,
    ensures
        0 <= (y * width + x) * ch + c < width * height * ch,
        ((y * width + x) * ch + c) / ch == y * width + x,
        ((y * width + x) * ch + c) % ch == c,
        (y * width + x) / width == y,
        (y * width + x) % width == x,
{
    let k = (y * width + x) * ch + c;
    assert(0 <= k < width * height * ch) by (nonlinear_arith)
        requires
            k == (y * width + x) * ch + c,
            0 <= y < height,
            0 <= x < width,
            0 <= c < ch,
    ;
    assert(k == (y * width + x) * ch + c);
    vstd::arithmetic::div_mod::lemma_fundamental_div_mod_converse(k, ch, y * width + x, c);
    assert(y * width + x == y * width + x);
    vstd::arithmetic::div_mod::lemma_fundamental_div_mod_converse(y * width + x, width, y, x);
}

/// The bytes uploaded for a `width` x `height` image given as rows of RGB
/// (or, with alpha, RGBA) bytes, top row first: the image mirrored left to
/// right when `flip_horizontal` and top to bottom when `flip_vertical`.
pub fn texture_pixels(
    pixels: Vec<u8>,
    width: u32,
    height: u32,
    has_alpha: bool,
    flip_horizontal: bool,
    flip_vertical: bool,
) -> (r: Vec<u8>)
    requires
        pixels@.len() == width * height * pixel_channels(has_alpha),
    ensures
        r@.len() == pixels@.len(),
        forall|y: int, x: int, c: int|
            0 <= y < height && 0 <= x < width && 0 <= c < pixel_channels(has_alpha) ==> #[trigger] r@[byte_at(
                y,
                x,
                c,
                width as int,
                pixel_channels(has_alpha),
            )] == pixels@[byte_at(
                source_row(y, height as int, flip_vertical),
                source_col(x, width as int, flip_horizontal),
                c,
                width as int,
                pixel_channels(has_alpha),
            )],
{
    let ch: usize = if has_alpha { 4 } else { 3 };
    let ghost chi = ch as int;
    let ghost w = width as int;
    let ghost h = height as int;
    let n = pixels.len();
    let w_u = width as usize;
    let h_u = height as usize;
    let mut r: Vec<u8> = Vec::new();
    let mut k: usize = 0;
    while k < n
        invariant
            n == pixels@.len(),
            n == w * h * chi,
            chi == pixel_channels(has_alpha),
            ch == chi,
            w_u == w,
            h_u == h,
            k <= n,
            r@.len() == k,
            forall|j: int| 0 <= j < k ==> #[trigger] r@[j] == pixels@[source_byte(j, w, h, chi, flip_horizontal, flip_vertical)],
        decreases n - k,
    {
        let p = k / ch;
        let c = k % ch;
        proof {
            lemma_pixel_position(k as int, w, h, chi, 0, 0);
        }
        let y = p / w_u;
        let x = p % w_u;
        let sy = if flip_vertical { h_u - 1 - y } else { y };
        let sx = if flip_horizontal { w_u - 1 - x } else { x };
        proof {
            lemma_pixel_position(k as int, w, h, chi, sy as int, sx as int);
            assert(sy * w + sx <= (sy * w + sx) * chi) by (nonlinear_arith)
                requires
                    0 <= sy,
                    0 <= sx,
                    0 <= w,
                    1 <= chi,
            ;
            assert(sy * w <= sy * w + sx);
        }
        let idx = (sy * w_u + sx) * ch + c;
        assert(idx == source_byte(k as int, w, h, chi, flip_horizontal, flip_vertical));
        r.push(pixels[idx]);
        k = k + 1;
    }
    proof {
        assert forall|y: int, x: int, c: int|
            0 <= y < h && 0 <= x < w && 0 <= c < chi implies #[trigger] r@[byte_at(y, x, c, w, chi)] == pixels@[byte_at(
                source_row(y, h, flip_vertical),
                source_col(x, w, flip_horizontal),
                c,
                w,
                chi,
            )] by {
            lemma_byte_of_pixel(y, x, c, w, h, chi);
            let k = (y * w + x) * chi + c;
            assert(r@[k] == pixels@[source_byte(k, w, h, chi, flip_horizontal, flip_vertical)]);
        }
    }
    r
}

/// The pixel format a texture is uploaded in: RGBA with an alpha channel, RGB otherwise.
pub fn texture_format(has_alpha: bool) -> (r: u32)
    ensures
        r == if has_alpha { gl_enums::RGBA } else { gl_enums::RGB },
{
    if has_alpha {
        gl_enums::RGBA
    } else {
        gl_enums::RGB
    }
}

/// A texture object and how its image was loaded.
pub struct Texture {
    id: u32,
    path: String,
    alpha: bool,
    flip: [bool; 2],
    dimension: [u32; 2],
    uniform_name: Option<String>,
    texture_type: TextureTarget,
}

impl Texture {
    pub closed spec fn spec_id(&self) -> u32 {
        self.id
    }

    pub closed spec fn spec_path(&self) -> Seq<char> {
        self.path@
    }

    pub closed spec fn spec_alpha(&self) -> bool {
        self.alpha
    }

    pub closed spec fn spec_flip(&self) -> (bool, bool) {
        (self.flip[0], self.flip[1])
    }

    pub closed spec fn spec_size(&self) -> (u32, u32) {
        (self.dimension[0], self.dimension[1])
    }

    pub closed spec fn spec_uniform_name(&self) -> Option<Seq<char>> {
        opt_view(self.uniform_name)
    }

    pub closed spec fn spec_texture_type(&self) -> TextureTarget {
        self.texture_type
    }

    /// The texture object `id` (as created by OpenGL) holding the image
    /// loaded from `path`; an empty `uniform_name` stands for none.
    pub fn new(
        id: u32,
        path: &str,
        has_alpha: bool,
        flip_horizontal: bool,
        flip_vertical: bool,
        width: u32,
        height: u32,
        uniform_name: &str,
        texture_type: TextureTarget,
    ) -> (r: Self)
        ensures
            r.spec_id() == id,
            r.spec_path() == path@,
            r.spec_alpha() == has_alpha,
            r.spec_flip() == (flip_horizontal, flip_vertical),
            r.spec_size() == (width, height),
            r.spec_uniform_name() == uniform_name_of(uniform_name@),
            r.spec_texture_type() == texture_type,
    {
        let uniform_name = if uniform_name.is_empty() {
            None
        } else {
            Some(uniform_name.to_owned())
        };
        Texture {
            id,
            path: path.to_owned(),
            alpha: has_alpha,
            flip: [flip_horizontal, flip_vertical],
            dimension: [width, height],
            uniform_name,
            texture_type,
        }
    }

    pub fn get_texture_id(&self) -> (r: u32)
        ensures
            r == self.spec_id(),
    {
        self.id
    }

    /// The name of the sampler uniform the texture is bound to, if any.
    pub fn uniform_name(&self) -> (r: &Option<String>)
        ensures
            opt_view(*r) == self.spec_uniform_name(),
    {
        &self.uniform_name
    }

    pub fn has_alpha(&self) -> (r: bool)
        ensures
            r == self.spec_alpha(),
    {
        self.alpha
    }

    pub fn path(&self) -> (r: &str)
        ensures
            r@ == self.spec_path(),
    {
        self.path.as_str()
    }

    pub fn flipped_horizontal(&self) -> (r: bool)
        ensures
            r == self.spec_flip().0,
    {
        self.flip[0]
    }

    pub fn flipped_vertical(&self) -> (r: bool)
        ensures
            r == self.spec_flip().1,
    {
        self.flip[1]
    }

    pub fn width(&self) -> (r: u32)
        ensures
            r == self.spec_size().0,
    {
        self.dimension[0]
    }

    pub fn height(&self) -> (r: u32)
        ensures
            r == self.spec_size().1,
    {
        self.dimension[1]
    }

    /// Forgets the texture's name, handing it back when there is one to delete.
    pub fn delete(&mut self) -> (r: Option<u32>)
        ensures
            final(self).spec_id() == 0,
            r == (if old(self).spec_id() != 0 { Some(old(self).spec_id()) } else { None }),
            final(self).spec_path() == old(self).spec_path(),
            final(self).spec_uniform_name() == old(self).spec_uniform_name(),
    {
        if self.id != 0 {
            let id = self.id;
            self.id = 0;
            Some(id)
        } else {
            None
        }
    }
}

/// What a texture is made from: the image file, how to load it, and where
/// to bind it.
pub struct TextureRequest {
    pub path: String,
    pub has_alpha: bool,
    pub flip_horizontal: bool,
    pub flip_vertical: bool,
    pub uniform_name: String,
    pub texture_target: TextureTarget,
}

/// Collects the settings of a texture to load.
pub struct TextureBuilder {
    path: Option<String>,
    has_alpha: bool,
    flip_horizontal: bool,
    flip_vertical: bool,
    uniform_name: Option<String>,
    texture_target: Option<TextureTarget>,
}

impl Default for TextureBuilder {
    fn default() -> (r: Self)
        ensures
            r.spec_path() is None,
            !r.spec_has_alpha(),
            !r.spec_flip_horizontal(),
            !r.spec_flip_vertical(),
            r.spec_uniform_name() is None,
            r.spec_texture_target() is None,
    {
        TextureBuilder {
            path: None,
            has_alpha: false,
            flip_horizontal: false,
            flip_vertical: false,
            uniform_name: None,
            texture_target: None,
        }
    }
}

impl TextureBuilder {
    pub closed spec fn spec_path(&self) -> Option<Seq<char>> {
        opt_view(self.path)
    }

    pub closed spec fn spec_has_alpha(&self) -> bool {
        self.has_alpha
    }

    pub closed spec fn spec_flip_horizontal(&self) -> bool {
        self.flip_horizontal
    }

    pub closed spec fn spec_flip_vertical(&self) -> bool {
        self.flip_vertical
    }

    pub closed spec fn spec_uniform_name(&self) -> Option<Seq<char>> {
        opt_view(self.uniform_name)
    }

    pub closed spec fn spec_texture_target(&self) -> Option<TextureTarget> {
        self.texture_target
    }

    /// The other settings are the same in `a` and `b`.
    pub open spec fn same_but_path(a: Self, b: Self) -> bool {
        &&& a.spec_has_alpha() == b.spec_has_alpha()
        &&& a.spec_flip_horizontal() == b.spec_flip_horizontal()
        &&& a.spec_flip_vertical() == b.spec_flip_vertical()
        &&& a.spec_uniform_name() == b.spec_uniform_name()
        &&& a.spec_texture_target() == b.spec_texture_target()
    }

    pub fn path(self, path: String) -> (r: Self)
        ensures
            r.spec_path() == Some(path@),
            Self::same_but_path(r, self),
    {
        TextureBuilder { path: Some(path), ..self }
    }

    pub fn has_alpha(self, value: bool) -> (r: Self)
        ensures
            r.spec_has_alpha() == value,
            r.spec_path() == self.spec_path(),
            r.spec_flip_horizontal() == self.spec_flip_horizontal(),
            r.spec_flip_vertical() == self.spec_flip_vertical(),
            r.spec_uniform_name() == self.spec_uniform_name(),
            r.spec_texture_target() == self.spec_texture_target(),
    {
        TextureBuilder { has_alpha: value, ..self }
    }

    pub fn flip_horizontal(self, value: bool) -> (r: Self)
        ensures
            r.spec_flip_horizontal() == value,
            r.spec_path() == self.spec_path(),
            r.spec_has_alpha() == self.spec_has_alpha(),
            r.spec_flip_vertical() == self.spec_flip_vertical(),
            r.spec_uniform_name() == self.spec_uniform_name(),
            r.spec_texture_target() == self.spec_texture_target(),
    {
        TextureBuilder { flip_horizontal: value, ..self }
    }

    pub fn flip_vertical(self, value: bool) -> (r: Self)
        ensures
            r.spec_flip_vertical() == value,
            r.spec_path() == self.spec_path(),
            r.spec_has_alpha() == self.spec_has_alpha(),
            r.spec_flip_horizontal() == self.spec_flip_horizontal(),
            r.spec_uniform_name() == self.spec_uniform_name(),
            r.spec_texture_target() == self.spec_texture_target(),
    {
        TextureBuilder { flip_vertical: value, ..self }
    }

    pub fn with_uniform_name(self, uniform_name: &str) -> (r: Self)
        ensures
            r.spec_uniform_name() == Some(uniform_name@),
            r.spec_path() == self.spec_path(),
            r.spec_has_alpha() == self.spec_has_alpha(),
            r.spec_flip_horizontal() == self.spec_flip_horizontal(),
            r.spec_flip_vertical() == self.spec_flip_vertical(),
            r.spec_texture_target() == self.spec_texture_target(),
    {
        TextureBuilder { uniform_name: Some(uniform_name.to_owned()), ..self }
    }

    pub fn with_texture_target(self, texture_target: TextureTarget) -> (r: Self)
        ensures
            r.spec_texture_target() == Some(texture_target),
            r.spec_path() == self.spec_path(),
            r.spec_has_alpha() == self.spec_has_alpha(),
            r.spec_flip_horizontal() == self.spec_flip_horizontal(),
            r.spec_flip_vertical() == self.spec_flip_vertical(),
            r.spec_uniform_name() == self.spec_uniform_name(),
    {
        TextureBuilder { texture_target: Some(texture_target), ..self }
    }

    /// The request the settings make, when a path was given: the uniform
    /// name defaults to the empty text and the target to `Texture2D`.
    pub open spec fn request_matches(&self, q: TextureRequest) -> bool {
        &&& self.spec_path() == Some(q.path@)
        &&& q.has_alpha == self.spec_has_alpha()
        &&& q.flip_horizontal == self.spec_flip_horizontal()
        &&& q.flip_vertical == self.spec_flip_vertical()
        &&& q.uniform_name@ == match self.spec_uniform_name() {
            Some(n) => n,
            None => Seq::<char>::empty(),
        }
        &&& q.texture_target == match self.spec_texture_target() {
            Some(t) => t,
            None => TextureTarget::Texture2D,
        }
    }

    /// The request the settings make; `None` without a path.
    pub fn request(&self) -> (r: Option<TextureRequest>)
        ensures
            self.spec_path() is None <==> r is None,
            r matches Some(q) ==> self.request_matches(q),
    {
        let path = match &self.path {
            Some(p) => p.clone(),
            None => {
                return None;
            },
        };
        let uniform_name = match &self.uniform_name {
            Some(n) => n.clone(),
            None => String::new(),
        };
        let texture_target = match self.texture_target {
            Some(t) => t,
            None => TextureTarget::Texture2D,
        };
        Some(
            TextureRequest {
                path,
                has_alpha: self.has_alpha,
                flip_horizontal: self.flip_horizontal,
                flip_vertical: self.flip_vertical,
                uniform_name,
                texture_target,
            },
        )
    }

    /// Creates the texture with `create` from the request the settings make;
    /// refused without a path.
    pub fn build<F: Fn(&TextureRequest) -> Result<Texture, String>>(&self, create: F) -> (r: Result<Texture, String>)
        requires
            forall|q: &TextureRequest| create.requires((q,)),
        ensures
            self.spec_path() is None ==> (r matches Err(m) && m@ == "No path specified"@),
            self.spec_path() is Some ==> exists|q: TextureRequest|
                self.request_matches(q) && #[trigger] create.ensures((&q,), r),
    {
        match self.request() {
            Some(q) => create(&q),
            None => Err("No path specified".to_owned()),
        }
    }
}

/// Textures bound to consecutive texture units, in the order they were added.
pub struct MultiTexture {
    textures: Vec<Texture>,
}

impl MultiTexture {
    pub closed spec fn spec_textures(&self) -> Seq<Texture> {
        self.textures@
    }

    pub fn new() -> (r: Self)
        ensures
            r.spec_textures() == Seq::<Texture>::empty(),
    {
        MultiTexture { textures: Vec::new() }
    }

    pub fn add_texture(&mut self, texture: Texture)
        ensures
            final(self).spec_textures() == old(self).spec_textures().push(texture),
    {
        self.textures.push(texture);
    }

    pub fn clear(&mut self)
        ensures
            final(self).spec_textures() == Seq::<Texture>::empty(),
    {
        self.textures.clear();
    }

    /// Binding texture `i` succeeded: it has no uniform name (and is
    /// skipped), or `bind` succeeded for it at unit `i` under its name.
    pub open spec fn bound<B: Fn(&Texture, i32, &String) -> Result<(), String>>(&self, bind: B, i: int) -> bool {
        let t = self.spec_textures()[i];
        t.spec_uniform_name() is None || exists|n: String|
            Some(n@) == t.spec_uniform_name() && #[trigger] bind.ensures((&t, i as i32, &n), Ok(()))
    }

    /// `bind` failed with `m` for texture `k`, which has a uniform name.
    pub open spec fn bind_failed<B: Fn(&Texture, i32, &String) -> Result<(), String>>(
        &self,
        bind: B,
        k: int,
        m: String,
    ) -> bool {
        let t = self.spec_textures()[k];
        exists|n: String| Some(n@) == t.spec_uniform_name() && #[trigger] bind.ensures((&t, k as i32, &n), Err(m))
    }

    /// Binds every texture with a uniform name to the texture unit of its
    /// position, with `bind` (which binds the texture and sets the sampler
    /// uniform); stops at the first failure.
    pub fn bind_textures<B: Fn(&Texture, i32, &String) -> Result<(), String>>(&self, bind: B) -> (r: Result<(), String>)
        requires
            forall|t: &Texture, unit: i32, n: &String| bind.requires((t, unit, n)),
        ensures
            r is Ok ==> forall|i: int| 0 <= i < self.spec_textures().len() ==> #[trigger] self.bound(bind, i),
            r matches Err(m) ==> exists|k: int|
                {
                    &&& 0 <= k < self.spec_textures().len()
                    &&& forall|i: int| 0 <= i < k ==> #[trigger] self.bound(bind, i)
                    &&& #[trigger] self.bind_failed(bind, k, m)
                },
    {
        let mut i: usize = 0;
        while i < self.textures.len()
            invariant
                i <= self.spec_textures().len(),
                forall|t: &Texture, unit: i32, n: &String| bind.requires((t, unit, n)),
                forall|j: int| 0 <= j < i ==> #[trigger] self.bound(bind, j),
            decreases self.spec_textures().len() - i,
        {
            let t = &self.textures[i];
            match &t.uniform_name {
                None => {},
                Some(name) => {
                    let unit = #[verifier::truncate] (i as i32);
                    match bind(t, unit, name) {
                        Ok(u) => {
                            assert(bind.ensures((t, unit, name), Ok(u)));
                        },
                        Err(m) => {
                            assert(bind.ensures((t, unit, name), Err(m)));
                            assert(self.bind_failed(bind, i as int, m));
                            return Err(m);
                        },
                    }
                },
            }
            i = i + 1;
        }
        Ok(())
    }
}

} // verus!
