//! Display
use vstd::prelude::*;

verus! {

/// Monochrome pixel
#[derive(Clone, Copy, Debug, PartialEq, Eq, Structural)]
pub enum Pixel {
    /// Off
    Off,
    /// On
    On,
}

/// `a` XOR `b`: on exactly when one of them is on
pub open spec fn pixel_xor(a: Pixel, b: Pixel) -> Pixel {
    if a == b {
        Pixel::Off
    } else {
        Pixel::On
    }
}

impl Default for Pixel {
    fn default() -> (r: Pixel)
        ensures
            r == Pixel::Off,
    {
        Pixel::Off
    }
}

impl Pixel {
    /// `self` XOR `rhs`
    pub fn xor(self, rhs: Pixel) -> (r: Pixel)
        ensures
            r == pixel_xor(self, rhs),
    {
        match (self, rhs) {
            (Pixel::Off, Pixel::Off) => Pixel::Off,
            (Pixel::Off, Pixel::On) => Pixel::On,
            (Pixel::On, Pixel::Off) => Pixel::On,
            (Pixel::On, Pixel::On) => Pixel::Off,
        }
    }
}

impl core::ops::BitXorAssign for Pixel {
    /// Flips the pixel when `rhs` is on, leaves it unchanged when `rhs` is off
    fn bitxor_assign(&mut self, rhs: Pixel)
        ensures
            *final(self) == pixel_xor(*old(self), rhs),
    {
        *self = self.xor(rhs);
    }
}


impl Pixel {
    /// The character that shows the pixel: `▓` when on, `░` when off
    pub fn symbol(self) -> (r: &'static str)
        ensures
            r@ == pixel_symbol(self),
    {
        match self {
            Pixel::Off => "░",
            Pixel::On => "▓",
        }
    }
}

/// The text of a pixel
pub open spec fn pixel_symbol(p: Pixel) -> Seq<char> {
    match p {
        Pixel::Off => "░"@,
        Pixel::On => "▓"@,
    }
}

/// Result from drawing a sprite.
#[derive(Clone, Copy, Debug, PartialEq, Eq, Structural)]
pub enum DrawResult {
    /// Pixels were only set to `On` state
    Drawn,
    /// Some pixels were erased while drawing
    Overdrawn,
}

/// Horizontal pixel count
pub const WIDTH: usize = 64;

/// Vertical pixel count
pub const HEIGHT: usize = 32;

/// Number of pixels of the display
pub const PIXELS: usize = 2048;

/// X coordinate of a `Pixel` on the `Display`
#[derive(Clone, Copy, Debug, PartialEq, Eq, Structural)]
pub struct XCoordinate(usize);

/// Y coordinate of a `Pixel` on the `Display`
#[derive(Clone, Copy, Debug, PartialEq, Eq, Structural)]
pub struct YCoordinate(usize);

impl View for XCoordinate {
    type V = usize;

    /// The column; the type invariant keeps it below `WIDTH`.
    closed spec fn view(&self) -> usize {
        (self.0 % WIDTH) as usize
    }
}

impl View for YCoordinate {
    type V = usize;

    /// The line; the type invariant keeps it below `HEIGHT`.
    closed spec fn view(&self) -> usize {
        (self.0 % HEIGHT) as usize
    }
}

impl XCoordinate {
    #[verifier::type_invariant]
    spec fn on_display(self) -> bool {
        self.0 < WIDTH
    }

    /// Every x coordinate lies on the display
    pub broadcast proof fn lemma_in_range(x: XCoordinate)
        ensures
            #[trigger] x@ < WIDTH,
    {
    }

    /// The column `x` wrapped around the display
    pub fn new(x: usize) -> (r: XCoordinate)
        ensures
            r@ == x % WIDTH,
    {
        XCoordinate(x % WIDTH)
    }

    /// The column
    pub fn value(self) -> (r: usize)
        ensures
            r == self@,
            r < WIDTH,
    {
        proof {
            use_type_invariant(self);
        }
        self.0
    }

    /// Returns a new x coordinate that might have wrapped around the display
    pub fn wrapping_add(self, rhs: usize) -> (r: XCoordinate)
        ensures
            r@ == (self@ + rhs) % (WIDTH as int),
    {
        let x = self.value();
        proof {
            assert((x + rhs % WIDTH) % (WIDTH as int) == (x + rhs) % (WIDTH as int)) by {
                vstd::arithmetic::div_mod::lemma_add_mod_noop(x as int, rhs as int, WIDTH as int);
                vstd::arithmetic::div_mod::lemma_mod_twice(rhs as int, WIDTH as int);
                vstd::arithmetic::div_mod::lemma_add_mod_noop(x as int, (rhs % WIDTH) as int, WIDTH as int);
            }
        }
        XCoordinate((x + rhs % WIDTH) % WIDTH)
    }
}

impl YCoordinate {
    #[verifier::type_invariant]
    spec fn on_display(self) -> bool {
        self.0 < HEIGHT
    }

    /// Every y coordinate lies on the display
    pub broadcast proof fn lemma_in_range(y: YCoordinate)
        ensures
            #[trigger] y@ < HEIGHT,
    {
    }

    /// The line `y` wrapped around the display
    pub fn new(y: usize) -> (r: YCoordinate)
        ensures
            r@ == y % HEIGHT,
    {
        YCoordinate(y % HEIGHT)
    }

    /// The line
    pub fn value(self) -> (r: usize)
        ensures
            r == self@,
            r < HEIGHT,
    {
        proof {
            use_type_invariant(self);
        }
        self.0
    }

    /// Returns a new y coordinate that might have wrapped around the display
    pub fn wrapping_add(self, rhs: usize) -> (r: YCoordinate)
        ensures
            r@ == (self@ + rhs) % (HEIGHT as int),
    {
        let y = self.value();
        proof {
            assert((y + rhs % HEIGHT) % (HEIGHT as int) == (y + rhs) % (HEIGHT as int)) by {
                vstd::arithmetic::div_mod::lemma_add_mod_noop(y as int, rhs as int, HEIGHT as int);
                vstd::arithmetic::div_mod::lemma_mod_twice(rhs as int, HEIGHT as int);
                vstd::arithmetic::div_mod::lemma_add_mod_noop(y as int, (rhs % HEIGHT) as int, HEIGHT as int);
            }
        }
        YCoordinate((y + rhs % HEIGHT) % HEIGHT)
    }
}

pub broadcast group group_coordinates {
    XCoordinate::lemma_in_range,
    YCoordinate::lemma_in_range,
}

/// Position in the framebuffer of the pixel at column `x` of line `y`
pub open spec fn pixel_index(x: int, y: int) -> int {
    y * WIDTH + x
}

/// The framebuffer with every pixel off
pub open spec fn blank() -> Seq<Pixel> {
    Seq::new(PIXELS as nat, |k: int| Pixel::Off)
}

/// The framebuffer `d` after XOR-ing the first `n` pixels of `row` onto line `y`, starting at
/// column `x`; both wrap around the display
pub open spec fn draw_pixels(d: Seq<Pixel>, row: Seq<Pixel>, x: int, y: int, n: nat) -> Seq<
    Pixel,
>
    decreases n,
{
    if n == 0 {
        d
    } else {
        let before = draw_pixels(d, row, x, y, (n - 1) as nat);
        let k = pixel_index((x + n - 1) % (WIDTH as int), y % (HEIGHT as int));
        before.update(k, pixel_xor(before[k], row[n - 1]))
    }
}

/// Whether XOR-ing the first `n` pixels of `row` onto `d` as `draw_pixels` does turns off a pixel
/// that was on
pub open spec fn pixels_collide(d: Seq<Pixel>, row: Seq<Pixel>, x: int, y: int, n: nat) -> bool
    decreases n,
{
    if n == 0 {
        false
    } else {
        let before = draw_pixels(d, row, x, y, (n - 1) as nat);
        let k = pixel_index((x + n - 1) % (WIDTH as int), y % (HEIGHT as int));
        pixels_collide(d, row, x, y, (n - 1) as nat) || (before[k] == Pixel::On && row[n - 1]
            == Pixel::On)
    }
}

/// The framebuffer `d` after XOR-ing the first `n` rows of a sprite at `(x, y)`, row `r` onto
/// line `y + r`
pub open spec fn draw_rows(d: Seq<Pixel>, rows: Seq<Seq<Pixel>>, x: int, y: int, n: nat) -> Seq<
    Pixel,
>
    decreases n,
{
    if n == 0 {
        d
    } else {
        let before = draw_rows(d, rows, x, y, (n - 1) as nat);
        draw_pixels(before, rows[n - 1], x, y + n - 1, 8)
    }
}

/// Whether drawing the first `n` rows as `draw_rows` does turns off a pixel that was on
pub open spec fn rows_collide(d: Seq<Pixel>, rows: Seq<Seq<Pixel>>, x: int, y: int, n: nat) -> bool
    decreases n,
{
    if n == 0 {
        false
    } else {
        let before = draw_rows(d, rows, x, y, (n - 1) as nat);
        rows_collide(d, rows, x, y, (n - 1) as nat) || pixels_collide(
            before,
            rows[n - 1],
            x,
            y + n - 1,
            8,
        )
    }
}

/// Display with 64 * 32 monochrome pixels
pub struct Display {
    pixels: [Pixel; PIXELS],
}

impl View for Display {
    type V = Seq<Pixel>;

    /// The pixels line by line, the pixel at `(x, y)` at `pixel_index(x, y)`
    closed spec fn view(&self) -> Seq<Pixel> {
        self.pixels@
    }
}

impl Display {
    /// Horizontal pixel count
    pub const WIDTH: usize = WIDTH;

    /// Vertical pixel count
    pub const HEIGHT: usize = HEIGHT;

    /// A display holds `PIXELS` pixels
    pub broadcast proof fn lemma_len(d: Display)
        ensures
            #[trigger] d@.len() == PIXELS,
    {
    }

    /// Creates a display with every pixel off
    pub fn new() -> (r: Display)
        ensures
            r@ == blank(),
    {
        let r = Display { pixels: [Pixel::Off; PIXELS] };
        assert(r@ =~= blank());
        r
    }

    /// The pixel at `(x, y)`
    pub fn pixel(&self, x: XCoordinate, y: YCoordinate) -> (r: Pixel)
        ensures
            r == self@[pixel_index(x@ as int, y@ as int)],
    {
        self.pixels[y.value() * WIDTH + x.value()]
    }

    /// Clears the display by setting all pixels to the `Off` state
    pub fn clear(&mut self)
        ensures
            final(self)@ == blank(),
    {
        let mut k: usize = 0;
        while k < PIXELS
            invariant
                k <= PIXELS,
                self@.len() == PIXELS,
                forall|j: int| 0 <= j < k ==> self@[j] == Pixel::Off,
            decreases PIXELS - k,
        {
            self.pixels[k] = Pixel::Off;
            k = k + 1;
        }
        assert(self@ =~= blank());
    }

    /// Draws `sprite` at the given `x` + `y` coordinates
    ///
    /// Row `r` of the sprite is XOR-ed onto line `y + r`, pixel `c` of a row onto column `x + c`,
    /// both wrapping around the display. Reports `Overdrawn` if a pixel that was on is turned off.
    pub fn draw(&mut self, sprite: &Sprite, x: XCoordinate, y: YCoordinate) -> (r: DrawResult)
        ensures
            final(self)@ == draw_rows(old(self)@, sprite@, x@ as int, y@ as int, sprite@.len()),
            r == (if rows_collide(old(self)@, sprite@, x@ as int, y@ as int, sprite@.len()) {
                DrawResult::Overdrawn
            } else {
                DrawResult::Drawn
            }),
    {
        broadcast use group_coordinates;

        let ghost start = self@;
        let mut res = DrawResult::Drawn;
        let mut r: usize = 0;
        while r < sprite.rows.len()
            invariant
                0 <= r <= sprite@.len(),
                sprite@.len() == sprite.rows@.len(),
                self@.len() == PIXELS,
                self@ == draw_rows(start, sprite@, x@ as int, y@ as int, r as nat),
                res == (if rows_collide(start, sprite@, x@ as int, y@ as int, r as nat) {
                    DrawResult::Overdrawn
                } else {
                    DrawResult::Drawn
                }),
            decreases sprite@.len() - r,
        {
            let line = y.wrapping_add(r);
            let row = &sprite.rows[r];
            let ghost before = self@;
            let ghost res_before = res;
            let mut c: usize = 0;
            while c < 8
                invariant
                    0 <= c <= 8,
                    r < sprite@.len(),
                    row@ == sprite@[r as int],
                    row@.len() == 8,
                    line@ == (y@ + r) % (HEIGHT as int),
                    self@.len() == PIXELS,
                    self@ == draw_pixels(before, row@, x@ as int, y@ + r, c as nat),
                    res == (if res_before == DrawResult::Overdrawn || pixels_collide(
                        before,
                        row@,
                        x@ as int,
                        y@ + r,
                        c as nat,
                    ) {
                        DrawResult::Overdrawn
                    } else {
                        DrawResult::Drawn
                    }),
                decreases 8 - c,
            {
                let column = x.wrapping_add(c);
                let k = line.value() * WIDTH + column.value();
                let bit = row.0[c];
                if self.pixels[k] == Pixel::On && bit == Pixel::On {
                    res = DrawResult::Overdrawn;
                }
                let p = self.pixels[k].xor(bit);
                self.pixels[k] = p;
                c = c + 1;
            }
            r = r + 1;
        }
        res
    }
}

impl Default for Display {
    fn default() -> (r: Display)
        ensures
            r@ == blank(),
    {
        Display::new()
    }
}

/// The pixel for bit `mask` of `bits`
pub open spec fn pixel_of(bits: u8, mask: u8) -> Pixel {
    if bits & mask == mask {
        Pixel::On
    } else {
        Pixel::Off
    }
}

/// The pixels of a sprite row, most significant bit first
pub open spec fn row_pixels(bits: u8) -> Seq<Pixel> {
    seq![
        pixel_of(bits, 0b1000_0000),
        pixel_of(bits, 0b0100_0000),
        pixel_of(bits, 0b0010_0000),
        pixel_of(bits, 0b0001_0000),
        pixel_of(bits, 0b0000_1000),
        pixel_of(bits, 0b0000_0100),
        pixel_of(bits, 0b0000_0010),
        pixel_of(bits, 0b0000_0001),
    ]
}

/// The rows of the sprite made of `bytes`, one row per byte
pub open spec fn sprite_rows(bytes: Seq<u8>) -> Seq<Seq<Pixel>> {
    Seq::new(bytes.len(), |k: int| row_pixels(bytes[k]))
}

/// Row of 8 pixels in a sprite
#[derive(Debug, PartialEq, Eq)]
pub struct SpriteRow(pub [Pixel; 8]);

impl View for SpriteRow {
    type V = Seq<Pixel>;

    open spec fn view(&self) -> Seq<Pixel> {
        self.0@
    }
}

/// The pixel for bit `mask` of `bits`
fn bit_pixel(bits: u8, mask: u8) -> (r: Pixel)
    ensures
        r == pixel_of(bits, mask),
{
    if bits & mask == mask {
        Pixel::On
    } else {
        Pixel::Off
    }
}

impl SpriteRow {
    /// The row whose pixels are the bits of `bits`, most significant bit first
    pub fn from_byte(bits: u8) -> (r: SpriteRow)
        ensures
            r@ == row_pixels(bits),
    {
        let r = SpriteRow(
            [
                bit_pixel(bits, 0b1000_0000),
                bit_pixel(bits, 0b0100_0000),
                bit_pixel(bits, 0b0010_0000),
                bit_pixel(bits, 0b0001_0000),
                bit_pixel(bits, 0b0000_1000),
                bit_pixel(bits, 0b0000_0100),
                bit_pixel(bits, 0b0000_0010),
                bit_pixel(bits, 0b0000_0001),
            ],
        );
        assert(r@ =~= row_pixels(bits));
        r
    }
}

impl From<u8> for SpriteRow {
    fn from(bits: u8) -> (r: SpriteRow) {
        let r = SpriteRow::from_byte(bits);
        proof {
            let c = choose|s: SpriteRow| s@ == row_pixels(bits);
            assert(c.0 =~= r.0);
        }
        r
    }
}

impl vstd::std_specs::convert::FromSpecImpl<u8> for SpriteRow {
    open spec fn obeys_from_spec() -> bool {
        true
    }

    open spec fn from_spec(bits: u8) -> SpriteRow {
        choose|s: SpriteRow| s@ == row_pixels(bits)
    }
}

/// Sprite of several rows of pixels
#[derive(Debug, PartialEq, Eq)]
pub struct Sprite {
    /// The rows, top to bottom
    pub rows: Vec<SpriteRow>,
}

impl View for Sprite {
    type V = Seq<Seq<Pixel>>;

    open spec fn view(&self) -> Seq<Seq<Pixel>> {
        Seq::new(self.rows@.len(), |k: int| self.rows@[k]@)
    }
}

/// The text of a sprite row
pub open spec fn row_text(row: Seq<Pixel>, n: nat) -> Seq<char>
    decreases n,
{
    if n == 0 {
        Seq::empty()
    } else {
        row_text(row, (n - 1) as nat) + pixel_symbol(row[n - 1])
    }
}

/// The text of the first `n` rows of a sprite, each row on a line of its own
pub open spec fn sprite_text(rows: Seq<Seq<Pixel>>, n: nat) -> Seq<char>
    decreases n,
{
    if n == 0 {
        Seq::empty()
    } else {
        sprite_text(rows, (n - 1) as nat) + row_text(rows[n - 1], 8) + "\n"@
    }
}

impl Sprite {
    /// The sprite made of `bytes`, one row per byte
    pub fn from_bytes(bytes: &[u8]) -> (r: Sprite)
        ensures
            r@ == sprite_rows(bytes@),
    {
        let mut rows: Vec<SpriteRow> = Vec::with_capacity(bytes.len());
        let mut k: usize = 0;
        while k < bytes.len()
            invariant
                k <= bytes@.len(),
                rows@.len() == k,
                forall|j: int| 0 <= j < k ==> (#[trigger] rows@[j])@ == row_pixels(bytes@[j]),
            decreases bytes@.len() - k,
        {
            rows.push(SpriteRow::from_byte(bytes[k]));
            k = k + 1;
        }
        let r = Sprite { rows };
        assert(r@ =~= sprite_rows(bytes@));
        r
    }

    /// The sprite as text: one line per row, `▓` for a pixel that is on and `░` for one that is
    /// off
    pub fn to_text(&self) -> (r: String)
        ensures
            r@ == sprite_text(self@, self@.len()),
    {
        let mut text = String::new();
        let mut k: usize = 0;
        while k < self.rows.len()
            invariant
                k <= self@.len(),
                self@.len() == self.rows@.len(),
                text@ == sprite_text(self@, k as nat),
            decreases self@.len() - k,
        {
            let row = &self.rows[k];
            let ghost line_start = text@;
            let mut c: usize = 0;
            while c < 8
                invariant
                    c <= 8,
                    k < self@.len(),
                    row@ == self@[k as int],
                    text@ == line_start + row_text(row@, c as nat),
                decreases 8 - c,
            {
                text.append(row.0[c].symbol());
                proof {
                    assert(line_start + row_text(row@, (c + 1) as nat) =~= line_start + row_text(
                        row@,
                        c as nat,
                    ) + pixel_symbol(row@[c as int]));
                }
                c = c + 1;
            }
            text.append("\n");
            proof {
                assert(sprite_text(self@, (k + 1) as nat) =~= sprite_text(self@, k as nat)
                    + row_text(self@[k as int], 8) + "\n"@);
            }
            k = k + 1;
        }
        text
    }
}

} // verus!
