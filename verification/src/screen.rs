use crate::memory::Memory;
use crate::vm::{SCREEN_BUFFER_SIZE, SCREEN_HEIGHT, SCREEN_WIDTH};
use vstd::prelude::*;
use vstd::string::*;

verus! {

/// An image of the `image` crate with red, green and blue bytes for
/// each pixel. Trusted: what it holds is known only through
/// `image_pixels` and `image_width`.
#[verifier::external_body]
pub struct RgbPicture {
    buffer: image::RgbImage,
}

/// The pixels of an image, row after row, each as red, green and blue.
pub uninterp spec fn image_pixels(img: RgbPicture) -> Seq<(u8, u8, u8)>;

/// The number of pixels in each row of an image.
pub uninterp spec fn image_width(img: RgbPicture) -> nat;

/// `image::ImageBuffer::new`: an image of the given size whose pixels
/// are all zero. Trusted. The call works out the length of its buffer
/// as three times the width, then times the height, and panics where
/// either product is more than a `usize` holds or the buffer would be
/// larger than a vector can be; `requires` leaves all three out.
#[verifier::external_body]
fn new_image(width: u32, height: u32) -> (img: RgbPicture)
    requires
        3 * width <= usize::MAX,
        3 * width * height <= isize::MAX,
    ensures
        image_width(img) == width,
        image_pixels(img) == Seq::new((width * height) as nat, |i: int| (0u8, 0u8, 0u8)),
{
    RgbPicture { buffer: image::ImageBuffer::new(width, height) }
}

/// `image::ImageBuffer::put_pixel`: replaces the pixel in column `x` of
/// row `y` and no other. Trusted. The call panics where the column or
/// the row lies outside the image, which `requires` leaves out.
#[verifier::external_body]
fn put_pixel(img: &mut RgbPicture, x: u32, y: u32, red: u8, green: u8, blue: u8)
    requires
        x < image_width(*old(img)),
        y * image_width(*old(img)) + x < image_pixels(*old(img)).len(),
    ensures
        image_width(*final(img)) == image_width(*old(img)),
        image_pixels(*final(img)) == image_pixels(*old(img)).update(
            y * image_width(*old(img)) + x,
            (red, green, blue),
        ),
{
    img.buffer.put_pixel(x, y, image::Rgb([red, green, blue]));
}

/// `image::ImageBuffer::into_raw`: the bytes of the image, three for
/// each pixel in the order red, green, blue, pixel after pixel. Trusted.
#[verifier::external_body]
fn into_raw(img: RgbPicture) -> (raw: Vec<u8>)
    ensures
        raw@.len() == 3 * image_pixels(img).len(),
        forall|i: int|
            0 <= i < image_pixels(img).len() ==> (raw@[3 * i], raw@[3 * i + 1], raw@[3 * i + 2])
                == #[trigger] image_pixels(img)[i],
{
    img.buffer.into_raw()
}

/// The red, green and blue of a palette index: a cube of six levels of
/// each for the indices below 216, black for the rest.
pub open spec fn palette_rgb(index: int) -> (int, int, int) {
    if 0 <= index < 216 {
        ((index / 36) * 0x33, ((index / 6) % 6) * 0x33, (index % 6) * 0x33)
    } else {
        (0, 0, 0)
    }
}

/// A palette index's colour as one number: red, green and blue from the
/// third-lowest byte down.
pub open spec fn palette_color(index: int) -> int {
    palette_rgb(index).0 * 0x1_0000 + palette_rgb(index).1 * 0x100 + palette_rgb(index).2
}

/// The red, green and blue packed in a colour.
pub open spec fn color_rgb(color: int) -> (int, int, int) {
    ((color / 0x1_0000) % 0x100, (color / 0x100) % 0x100, color % 0x100)
}

/// The red, green and blue of pixel `i` in a run of bytes that holds
/// three for each pixel.
pub open spec fn pixel_at(rgb: Seq<u8>, i: int) -> (int, int, int) {
    (rgb[3 * i] as int, rgb[3 * i + 1] as int, rgb[3 * i + 2] as int)
}

/// Where the screen's page starts: the register's byte times 64 KiB.
pub open spec fn screen_base(memory: Seq<u8>, register: int) -> int {
    memory[register] * 0x1_0000
}

/// The 65536 palette indices of the screen's page.
pub open spec fn screen_window(memory: Seq<u8>, register: int) -> Seq<u8> {
    memory.subrange(screen_base(memory, register), screen_base(memory, register) + 0x1_0000)
}

/// Each channel of a palette colour fits a byte, unpacking the colour
/// gives the three channels back, and the indices from 216 on are black.
pub proof fn lemma_palette_channels(index: int)
    ensures
        color_rgb(palette_color(index)) == palette_rgb(index),
        0 <= palette_rgb(index).0 <= 0xFF,
        0 <= palette_rgb(index).1 <= 0xFF,
        0 <= palette_rgb(index).2 <= 0xFF,
        0 <= palette_color(index) <= 0xFF_FFFF,
        !(0 <= index < 216) ==> palette_rgb(index) == (0int, 0int, 0int),
{
    let (red, green, blue) = palette_rgb(index);
    if 0 <= index < 216 {
        assert(0 <= index / 36 <= 5);
        assert(0 <= (index / 6) % 6 <= 5);
        assert(0 <= index % 6 <= 5);
    }
    assert(0 <= red <= 0xFF && 0 <= green <= 0xFF && 0 <= blue <= 0xFF);
    lemma_unpack(red, green, blue);
}

/// Three bytes packed into one number come out again as they went in.
pub proof fn lemma_unpack(red: int, green: int, blue: int)
    requires
        0 <= red <= 0xFF,
        0 <= green <= 0xFF,
        0 <= blue <= 0xFF,
    ensures
        color_rgb(red * 0x1_0000 + green * 0x100 + blue) == (red, green, blue),
        0 <= red * 0x1_0000 + green * 0x100 + blue <= 0xFF_FFFF,
{
    let color = red * 0x1_0000 + green * 0x100 + blue;
    vstd::arithmetic::div_mod::lemma_fundamental_div_mod_converse(
        color,
        0x1_0000,
        red,
        green * 0x100 + blue,
    );
    vstd::arithmetic::div_mod::lemma_fundamental_div_mod_converse(
        color,
        0x100,
        red * 0x100 + green,
        blue,
    );
    vstd::arithmetic::div_mod::lemma_fundamental_div_mod_converse(
        red * 0x100 + green,
        0x100,
        red,
        green,
    );
    vstd::arithmetic::div_mod::lemma_fundamental_div_mod_converse(red, 0x100, 0, red);
}

/// The character of a decimal digit.
pub open spec fn digit(d: int) -> char {
    if d == 0 {
        '0'
    } else if d == 1 {
        '1'
    } else if d == 2 {
        '2'
    } else if d == 3 {
        '3'
    } else if d == 4 {
        '4'
    } else if d == 5 {
        '5'
    } else if d == 6 {
        '6'
    } else if d == 7 {
        '7'
    } else if d == 8 {
        '8'
    } else {
        '9'
    }
}

/// `n` in decimal, without leading zeros.
pub open spec fn decimal(n: nat) -> Seq<char>
    decreases n,
{
    if n < 10 {
        seq![digit(n as int)]
    } else {
        decimal(n / 10).push(digit((n % 10) as int))
    }
}

/// `n` in decimal, with zeros in front where it has fewer than `width`
/// digits.
pub open spec fn zero_padded(n: nat, width: nat) -> Seq<char> {
    if decimal(n).len() >= width {
        decimal(n)
    } else {
        Seq::new((width - decimal(n).len()) as nat, |i: int| '0') + decimal(n)
    }
}

/// The file name of the screenshot with the given number: the number
/// has at least four digits.
pub open spec fn screenshot_name(file_index: nat) -> Seq<char> {
    "screenshot_"@ + zero_padded(file_index, 4) + ".png"@
}

fn digit_str(d: u32) -> (text: &'static str)
    requires
        d < 10,
    ensures
        text@ == seq![digit(d as int)],
{
    proof {
        reveal_strlit("0");
        reveal_strlit("1");
        reveal_strlit("2");
        reveal_strlit("3");
        reveal_strlit("4");
        reveal_strlit("5");
        reveal_strlit("6");
        reveal_strlit("7");
        reveal_strlit("8");
        reveal_strlit("9");
    }
    let text = if d == 0 {
        "0"
    } else if d == 1 {
        "1"
    } else if d == 2 {
        "2"
    } else if d == 3 {
        "3"
    } else if d == 4 {
        "4"
    } else if d == 5 {
        "5"
    } else if d == 6 {
        "6"
    } else if d == 7 {
        "7"
    } else if d == 8 {
        "8"
    } else {
        "9"
    };
    assert(text@ =~= seq![digit(d as int)]);
    text
}

fn push_decimal(text: &mut String, n: u32)
    ensures
        final(text)@ == old(text)@ + decimal(n as nat),
    decreases n,
{
    if n >= 10 {
        push_decimal(text, n / 10);
    }
    text.append(digit_str(n % 10));
    assert(text@ =~= old(text)@ + decimal(n as nat));
}

/// The file name of the screenshot with the given number.
pub fn screenshot_file_name(file_index: u32) -> (name: String)
    ensures
        name@ == screenshot_name(file_index as nat),
{
    let mut name = String::from_str("screenshot_");
    proof {
        reveal_strlit("0");
        reveal_strlit("00");
        reveal_strlit("000");
        reveal_with_fuel(decimal, 4);
    }
    if file_index < 10 {
        name.append("000");
        assert("000"@ =~= Seq::new(3, |i: int| '0'));
    } else if file_index < 100 {
        name.append("00");
        assert("00"@ =~= Seq::new(2, |i: int| '0'));
    } else if file_index < 1000 {
        name.append("0");
        assert("0"@ =~= Seq::new(1, |i: int| '0'));
    }
    assert(name@ + decimal(file_index as nat) =~= "screenshot_"@ + zero_padded(
        file_index as nat,
        4,
    ));
    push_decimal(&mut name, file_index);
    name.append(".png");
    name
}

/// A screenshot, ready to be written to a file.
pub struct Screenshot {
    /// The name of the file to write.
    pub file_name: String,
    /// The number of pixels in a row.
    pub width: u32,
    /// The number of rows.
    pub height: u32,
    /// Red, green and blue of each pixel, row after row.
    pub rgb: Vec<u8>,
}

/// Turns the screen's page into colours.
pub struct ScreenHandler {
    /// The colour of each palette index.
    pub palette: [u32; 256],
    /// Where the page of the screen is chosen.
    pub memory_register_addr: usize,
}

impl ScreenHandler {
    /// The palette holds the colour cube.
    pub open spec fn well_formed(&self) -> bool {
        forall|i: int| 0 <= i < 256 ==> #[trigger] self.palette[i] == palette_color(i)
    }

    /// The page that the register chooses lies inside `memory`.
    pub open spec fn page_in(&self, memory: Seq<u8>) -> bool {
        &&& self.memory_register_addr < memory.len()
        &&& screen_base(memory, self.memory_register_addr as int) + 0x1_0000 <= memory.len()
    }

    /// Whether the palette holds the colour cube.
    pub fn has_palette(&self) -> (ok: bool)
        ensures
            ok == self.well_formed(),
    {
        let expected = Self::init_palette();
        let mut i: usize = 0;
        while i < 256
            invariant
                i <= 256,
                forall|j: int| 0 <= j < 256 ==> #[trigger] expected[j] == palette_color(j),
                forall|j: int| 0 <= j < i ==> #[trigger] self.palette[j] == palette_color(j),
            decreases 256 - i,
        {
            if self.palette[i] != expected[i] {
                return false;
            }
            i += 1;
        }
        true
    }

    /// A handler that looks up the screen's page at `memory_register_addr`.
    pub fn new(memory_register_addr: usize) -> (handler: ScreenHandler)
        ensures
            handler.well_formed(),
            handler.memory_register_addr == memory_register_addr,
    {
        ScreenHandler { palette: Self::init_palette(), memory_register_addr }
    }

    /// The frame on the screen: the colour of each of its 65536 pixels,
    /// row after row.
    pub fn render_frame(&self, memory: &Memory) -> (screen: Vec<u32>)
        requires
            self.page_in(memory@),
        ensures
            screen@.len() == SCREEN_BUFFER_SIZE,
            forall|i: int|
                0 <= i < SCREEN_BUFFER_SIZE ==> #[trigger] screen@[i] == self.palette[screen_window(
                    memory@,
                    self.memory_register_addr as int,
                )[i] as int],
    {
        let new_frame = self.get_screen_buffer(memory);
        let mut screen: Vec<u32> = Vec::with_capacity(SCREEN_BUFFER_SIZE);
        let mut i: usize = 0;
        while i < SCREEN_BUFFER_SIZE
            invariant
                i <= SCREEN_BUFFER_SIZE,
                new_frame@.len() == SCREEN_BUFFER_SIZE,
                screen@.len() == i,
                forall|j: int| 0 <= j < i ==> screen@[j] == self.palette[new_frame@[j] as int],
            decreases SCREEN_BUFFER_SIZE - i,
        {
            screen.push(self.palette[new_frame[i] as usize]);
            i += 1;
        }
        screen
    }

    /// The screenshot numbered `file_index` of the frame on the screen:
    /// the name of its file, and the red, green and blue of the colour
    /// of each pixel. Writing the file is left to the caller.
    pub fn save_screen_png(&self, memory: &Memory, file_index: u32) -> (shot: Screenshot)
        requires
            self.page_in(memory@),
        ensures
            shot.file_name@ == screenshot_name(file_index as nat),
            shot.width == SCREEN_WIDTH,
            shot.height == SCREEN_HEIGHT,
            shot.rgb@.len() == 3 * SCREEN_BUFFER_SIZE,
            forall|i: int|
                0 <= i < SCREEN_BUFFER_SIZE ==> #[trigger] pixel_at(shot.rgb@, i) == color_rgb(
                    self.palette[screen_window(memory@, self.memory_register_addr as int)[i] as int] as int,
                ),
    {
        let buffer = self.get_screen_buffer(memory);
        let mut img_buf = new_image(SCREEN_WIDTH as u32, SCREEN_HEIGHT as u32);
        let mut i: usize = 0;
        while i < SCREEN_BUFFER_SIZE
            invariant
                i <= SCREEN_BUFFER_SIZE,
                buffer@.len() == SCREEN_BUFFER_SIZE,
                image_width(img_buf) == SCREEN_WIDTH,
                image_pixels(img_buf).len() == SCREEN_BUFFER_SIZE,
                forall|j: int|
                    0 <= j < i ==> (
                        image_pixels(img_buf)[j].0 as int,
                        image_pixels(img_buf)[j].1 as int,
                        image_pixels(img_buf)[j].2 as int,
                    ) == color_rgb(self.palette[buffer@[j] as int] as int),
            decreases SCREEN_BUFFER_SIZE - i,
        {
            let color = self.palette[buffer[i] as usize];
            assert(((color >> 16) & 0xFF) == (color / 0x1_0000) % 0x100) by (bit_vector);
            assert(((color >> 8) & 0xFF) == (color / 0x100) % 0x100) by (bit_vector);
            assert((color & 0xFF) == color % 0x100) by (bit_vector);
            let r = ((color >> 16) & 0xFF) as u8;
            let g = ((color >> 8) & 0xFF) as u8;
            let b = (color & 0xFF) as u8;
            let x = (i % SCREEN_WIDTH) as u32;
            let y = (i / SCREEN_WIDTH) as u32;
            assert(y * SCREEN_WIDTH + x == i);
            put_pixel(&mut img_buf, x, y, r, g, b);
            i += 1;
        }
        let ghost pixels = image_pixels(img_buf);
        let rgb = into_raw(img_buf);
        assert forall|k: int| 0 <= k < SCREEN_BUFFER_SIZE implies #[trigger] pixel_at(rgb@, k)
            == color_rgb(
            self.palette[screen_window(memory@, self.memory_register_addr as int)[k] as int] as int,
        ) by {
            assert((rgb@[3 * k], rgb@[3 * k + 1], rgb@[3 * k + 2]) == pixels[k]);
        }
        Screenshot {
            file_name: screenshot_file_name(file_index),
            width: SCREEN_WIDTH as u32,
            height: SCREEN_HEIGHT as u32,
            rgb,
        }
    }

    /// The palette: the colour of each of the 256 palette indices.
    pub fn init_palette() -> (palette: [u32; 256])
        ensures
            forall|i: int| 0 <= i < 256 ==> #[trigger] palette[i] == palette_color(i),
    {
        let mut palette: [u32; 256] = [0; 256];
        let mut idx: usize = 0;
        while idx < 216
            invariant
                idx <= 216,
                forall|i: int| 0 <= i < idx ==> palette[i] == palette_color(i),
                forall|i: int| idx <= i < 256 ==> palette[i] == 0,
            decreases 216 - idx,
        {
            let red: u32 = idx as u32 / 36 * 0x33;
            let green: u32 = idx as u32 / 6 % 6 * 0x33;
            let blue: u32 = idx as u32 % 6 * 0x33;
            assert((red << 16) | (green << 8) | blue == red * 0x1_0000 + green * 0x100 + blue)
                by (bit_vector)
                requires
                    red <= 0xFF,
                    green <= 0xFF,
                    blue <= 0xFF,
            ;
            palette[idx] = (red << 16) | (green << 8) | blue;
            idx += 1;
        }
        palette
    }

    fn get_screen_buffer(&self, memory: &Memory) -> (buffer: Vec<u8>)
        requires
            self.page_in(memory@),
        ensures
            buffer@ == screen_window(memory@, self.memory_register_addr as int),
    {
        let page = memory[self.memory_register_addr];
        assert((page as usize) << 16 == page * 0x1_0000) by (bit_vector);
        let graphics_addr = (page as usize) << 16;
        memory.slice(graphics_addr, SCREEN_BUFFER_SIZE)
    }
}

} // verus!
