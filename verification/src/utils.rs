use vstd::prelude::*;

use crate::models::{Category, CategoryData};

verus! {

/// Display title of a category.
pub open spec fn spec_category_title(c: Category) -> Seq<char> {
    match c {
        Category::Standard => "Regular Pass"@,
        Category::Vip => "Vip Pass"@,
        Category::Fast => "Fast Pass"@,
        Category::Extra => "Extra Pass"@,
    }
}

/// Display description of a category.
pub open spec fn spec_category_description(c: Category) -> Seq<char> {
    match c {
        Category::Standard => "With this credential, you have the following benefits/access:\n- Can access the main attractions\n- Free water at designated points\n- Welcome snack and ice cream\n- Personalized welcome upon entering the park"@,
        Category::Vip => "With this credential, you have the following benefits/access:\n- Access to the park's premium facilities (15 premium + 15 main attractions)\n- Priority entrance to attractions\n- Fast pass for 5 attractions\n- Access to the general food buffet\n- Unlimited soft drinks and water at all points in the park\n- Unlimited photos within the park\n- Access to the park's pools\n- Access to VIP lounge areas\n- 50% discount on fast pass\n- Priority access to the night show and a 35% discount"@,
        Category::Fast => "With this credential, you have the following benefit/access:\n- Fast pass to all attractions"@,
        Category::Extra => "With this credential, you have the following benefits/access:\n- Access to the full food buffet (25% discount on seasonal special meals)\n- Access to the pool in the morning and afternoon\n- Access to the night show\n- Unlimited photos within the park\n- Rental of a locker for valuable items\n- Priority reservation at the restaurant\n- In-park transportation service"@,
    }
}

/// Hero image URI of a category.
pub open spec fn spec_category_hero_uri(c: Category) -> Seq<char> {
    match c {
        Category::Standard => "https://limbertlino.github.io/schemas/images/s.png"@,
        Category::Vip => "https://limbertlino.github.io/schemas/images/v.png"@,
        Category::Fast => "https://limbertlino.github.io/schemas/images/f.png"@,
        Category::Extra => "https://limbertlino.github.io/schemas/images/e.png"@,
    }
}

/// Background color of a category; every category uses white.
pub open spec fn spec_category_background_color(c: Category) -> Seq<char> {
    "#FFFFFF"@
}

/// Returns metadata for a given ticket category. The mapping is total:
/// each of the four categories has its fixed display record.
pub fn get_category_data(category: &Category) -> (r: CategoryData)
    ensures
        r.title@ == spec_category_title(*category),
        r.description@ == spec_category_description(*category),
        r.hero_uri@ == spec_category_hero_uri(*category),
        r.background_color@ == spec_category_background_color(*category),
{
    match category {
        Category::Standard => CategoryData {
            title: "Regular Pass",
            description: "With this credential, you have the following benefits/access:\n- Can access the main attractions\n- Free water at designated points\n- Welcome snack and ice cream\n- Personalized welcome upon entering the park",
            background_color: "#FFFFFF",
            hero_uri: "https://limbertlino.github.io/schemas/images/s.png",
        },
        Category::Vip => CategoryData {
            title: "Vip Pass",
            description: "With this credential, you have the following benefits/access:\n- Access to the park's premium facilities (15 premium + 15 main attractions)\n- Priority entrance to attractions\n- Fast pass for 5 attractions\n- Access to the general food buffet\n- Unlimited soft drinks and water at all points in the park\n- Unlimited photos within the park\n- Access to the park's pools\n- Access to VIP lounge areas\n- 50% discount on fast pass\n- Priority access to the night show and a 35% discount",
            background_color: "#FFFFFF",
            hero_uri: "https://limbertlino.github.io/schemas/images/v.png",
        },
        Category::Fast => CategoryData {
            title: "Fast Pass",
            description: "With this credential, you have the following benefit/access:\n- Fast pass to all attractions",
            background_color: "#FFFFFF",
            hero_uri: "https://limbertlino.github.io/schemas/images/f.png",
        },
        Category::Extra => CategoryData {
            title: "Extra Pass",
            description: "With this credential, you have the following benefits/access:\n- Access to the full food buffet (25% discount on seasonal special meals)\n- Access to the pool in the morning and afternoon\n- Access to the night show\n- Unlimited photos within the park\n- Rental of a locker for valuable items\n- Priority reservation at the restaurant\n- In-park transportation service",
            background_color: "#FFFFFF",
            hero_uri: "https://limbertlino.github.io/schemas/images/e.png",
        },
    }
}

/// Law: the display mapping is total, and for every category the title,
/// description, hero URI and background color are all non-empty.
pub proof fn lemma_category_display_nonempty(c: Category)
    ensures
        spec_category_title(c).len() > 0,
        spec_category_description(c).len() > 0,
        spec_category_hero_uri(c).len() > 0,
        spec_category_background_color(c).len() > 0,
{
    reveal_strlit("Regular Pass");
    reveal_strlit("Vip Pass");
    reveal_strlit("Fast Pass");
    reveal_strlit("Extra Pass");
    reveal_strlit("With this credential, you have the following benefits/access:\n- Can access the main attractions\n- Free water at designated points\n- Welcome snack and ice cream\n- Personalized welcome upon entering the park");
    reveal_strlit("With this credential, you have the following benefits/access:\n- Access to the park's premium facilities (15 premium + 15 main attractions)\n- Priority entrance to attractions\n- Fast pass for 5 attractions\n- Access to the general food buffet\n- Unlimited soft drinks and water at all points in the park\n- Unlimited photos within the park\n- Access to the park's pools\n- Access to VIP lounge areas\n- 50% discount on fast pass\n- Priority access to the night show and a 35% discount");
    reveal_strlit("With this credential, you have the following benefit/access:\n- Fast pass to all attractions");
    reveal_strlit("With this credential, you have the following benefits/access:\n- Access to the full food buffet (25% discount on seasonal special meals)\n- Access to the pool in the morning and afternoon\n- Access to the night show\n- Unlimited photos within the park\n- Rental of a locker for valuable items\n- Priority reservation at the restaurant\n- In-park transportation service");
    reveal_strlit("https://limbertlino.github.io/schemas/images/s.png");
    reveal_strlit("https://limbertlino.github.io/schemas/images/v.png");
    reveal_strlit("https://limbertlino.github.io/schemas/images/f.png");
    reveal_strlit("https://limbertlino.github.io/schemas/images/e.png");
    reveal_strlit("#FFFFFF");
}

/// Character-wise string equality.
pub fn str_eq(a: &str, b: &str) -> (r: bool)
    ensures
        r == (a@ == b@),
{
    let alen = a.unicode_len();
    let blen = b.unicode_len();
    if alen != blen {
        return false;
    }
    let mut i: usize = 0;
    while i < alen
        invariant
            i <= alen,
            alen == a@.len() && alen == b@.len(),
            forall|j: int| 0 <= j < i ==> a@[j] == b@[j],
        decreases alen - i,
    {
        if a.get_char(i) != b.get_char(i) {
            return false;
        }
        i += 1;
    }
    proof {
        assert(a@ =~= b@);
    }
    true
}

/// The string value of a top-level field of a JSON object text, if the
/// text parses to an object holding a string there.
pub uninterp spec fn spec_json_string_field(body: Seq<char>, key: Seq<char>) -> Option<Seq<char>>;

/// Looks up a top-level string field of a JSON object text.
///
/// Relies on `serde_json::from_str` and `serde_json::Value::{get, as_str}`:
/// the result is `None` when the text is not valid JSON, is no object,
/// lacks the key, or holds a non-string value there, and the field's
/// string value otherwise. Parsing is a function of the text alone, so the
/// result is named by `spec_json_string_field`.
#[verifier::external_body]
pub(crate) fn json_string_field(body: &str, key: &str) -> (r: Option<String>)
    ensures
        r matches Some(v) ==> spec_json_string_field(body@, key@) == Some(v@),
        r is Some == spec_json_string_field(body@, key@) is Some,
{
    let parsed: serde_json::Value = match serde_json::from_str(body) {
        Ok(v) => v,
        Err(_) => return None,
    };
    match parsed.get(key) {
        Some(field) => field.as_str().map(|s| s.to_string()),
        None => None,
    }
}

/// Failure of the QR encoding step: the data does not fit any QR symbol
/// version at the encoder's medium error-correction level.
#[derive(Clone, Copy, Debug, PartialEq, Eq, Structural)]
pub struct QrEncodingError;

/// The module matrix (row-major, true for dark) of the QR symbol that
/// encodes the given text.
pub uninterp spec fn qr_modules_of(data: Seq<char>) -> Seq<bool>;

/// Whether the text fits some QR symbol version at the encoder's medium
/// error-correction level.
pub uninterp spec fn qr_encodable(data: Seq<char>) -> bool;

/// Encodes text as a QR symbol and hands out its module matrix together
/// with the symbol's width.
///
/// Relies on `qrcode::QrCode::new` (medium error correction, automatic
/// version choice): whether the data fits, and which matrix comes out,
/// are functions of the data alone, named here by `qr_encodable` and
/// `qr_modules_of`; the matrix is square with the symbol's width as its
/// side, and the encoder only ever picks the standard symbol versions,
/// whose widths run from 21 to 177 modules.
#[verifier::external_body]
pub(crate) fn qr_encode_modules(data: &str) -> (r: Option<(Vec<bool>, usize)>)
    ensures
        r matches Some(m) ==> m.0@ == qr_modules_of(data@) && m.0@.len() == m.1 * m.1 && 0 < m.1
            <= 177,
        r is Some == qr_encodable(data@),
{
    match qrcode::QrCode::new(data) {
        Ok(code) => {
            let width = code.width();
            let modules: Vec<bool> = code
                .into_colors()
                .into_iter()
                .map(|c| match c {
                    qrcode::Color::Dark => true,
                    qrcode::Color::Light => false,
                })
                .collect();
            Some((modules, width))
        },
        Err(_) => None,
    }
}

/// A grayscale square raster of a QR code: `pixels` row-major, one byte a
/// pixel, 0 dark and 255 light.
pub struct QrImage {
    pub width: usize,
    pub pixels: Vec<u8>,
}

/// The pixel of the rastered QR code at (row, col): modules scaled up by
/// `scale` with a quiet border of `border` modules around them.
pub open spec fn spec_qr_pixel(
    modules: Seq<bool>,
    w: int,
    scale: int,
    border: int,
    row: int,
    col: int,
) -> u8 {
    let mr = row / scale - border;
    let mc = col / scale - border;
    if 0 <= mr && mr < w && 0 <= mc && mc < w && modules[mr * w + mc] {
        0u8
    } else {
        255u8
    }
}

/// Rasters a square module matrix: every module becomes an 8 by 8 pixel
/// block, with a quiet border of 4 modules on each side.
pub fn render_modules(modules: &Vec<bool>, w: usize) -> (r: QrImage)
    requires
        modules@.len() == w * w,
        0 < w <= 4096,
    ensures
        r.width == (w + 8) * 8,
        r.pixels@.len() == r.width * r.width,
        forall|row: int, col: int|
            0 <= row < r.width && 0 <= col < r.width ==> r.pixels@[row * r.width + col]
                == spec_qr_pixel(modules@, w as int, 8, 4, row, col),
{
    let side = (w + 8) * 8;
    let mut pixels: Vec<u8> = Vec::new();
    let mut row: usize = 0;
    while row < side
        invariant
            side == (w + 8) * 8,
            0 < w <= 4096,
            modules@.len() == w * w,
            row <= side,
            pixels@.len() == row * side,
            forall|r2: int, c2: int|
                0 <= r2 < row && 0 <= c2 < side ==> pixels@[r2 * side + c2] == spec_qr_pixel(
                    modules@,
                    w as int,
                    8,
                    4,
                    r2,
                    c2,
                ),
        decreases side - row,
    {
        let mut col: usize = 0;
        while col < side
            invariant
                side == (w + 8) * 8,
                0 < w <= 4096,
                modules@.len() == w * w,
                row < side,
                col <= side,
                pixels@.len() == row * side + col,
                forall|r2: int, c2: int|
                    0 <= r2 < row && 0 <= c2 < side ==> pixels@[r2 * side + c2] == spec_qr_pixel(
                        modules@,
                        w as int,
                        8,
                        4,
                        r2,
                        c2,
                    ),
                forall|c2: int|
                    0 <= c2 < col ==> pixels@[row * side + c2] == spec_qr_pixel(
                        modules@,
                        w as int,
                        8,
                        4,
                        row as int,
                        c2,
                    ),
            decreases side - col,
        {
            let mrow = row / 8;
            let mcol = col / 8;
            let px: u8;
            if mrow >= 4 && mrow < 4 + w && mcol >= 4 && mcol < 4 + w {
                proof {
                    assert((mrow - 4) * w + (mcol - 4) < w * w && w * w <= 16777216)
                        by (nonlinear_arith)
                        requires
                            4 <= mrow < 4 + w,
                            4 <= mcol < 4 + w,
                            0 < w <= 4096,
                    ;
                }
                let mi = (mrow - 4) * w + (mcol - 4);
                px = if modules[mi] {
                    0
                } else {
                    255
                };
            } else {
                px = 255;
            }
            proof {
                assert(px == spec_qr_pixel(modules@, w as int, 8, 4, row as int, col as int));
            }
            pixels.push(px);
            col += 1;
            proof {
                assert forall|r2: int, c2: int|
                    0 <= r2 < row && 0 <= c2 < side implies pixels@[r2 * side + c2]
                    == spec_qr_pixel(modules@, w as int, 8, 4, r2, c2) by {
                    assert(r2 * side + c2 < row * side) by (nonlinear_arith)
                        requires
                            0 <= r2 < row,
                            0 <= c2 < side,
                            0 < side,
                    ;
                }
            }
        }
        row += 1;
        proof {
            assert(pixels@.len() == row * side) by (nonlinear_arith)
                requires
                    pixels@.len() == (row - 1) * side + side,
            ;
            assert forall|r2: int, c2: int|
                0 <= r2 < row && 0 <= c2 < side implies pixels@[r2 * side + c2] == spec_qr_pixel(
                modules@,
                w as int,
                8,
                4,
                r2,
                c2,
            ) by {
                if r2 < row - 1 {
                } else {
                    assert(r2 == row - 1);
                }
            }
        }
    }
    QrImage { width: side, pixels }
}

/// The raster `img` presents the square module matrix `modules` of side
/// `w`: modules scaled 8 times with a quiet border of 4 modules.
pub open spec fn spec_image_of_modules(img: QrImage, modules: Seq<bool>, w: int) -> bool {
    &&& 0 < w <= 4096
    &&& modules.len() == w * w
    &&& img.width == (w + 8) * 8
    &&& img.pixels@.len() == img.width * img.width
    &&& forall|row: int, col: int|
        0 <= row < img.width && 0 <= col < img.width ==> img.pixels@[row * img.width + col]
            == spec_qr_pixel(modules, w, 8, 4, row, col)
}

/// The raster `img` is the rendering of the QR symbol that encodes
/// `data`, at some symbol width.
pub open spec fn spec_qr_image_ok(img: QrImage, data: Seq<char>) -> bool {
    exists|w: int| #[trigger] spec_image_of_modules(img, qr_modules_of(data), w)
}

/// Encodes text as a QR code raster image: the module matrix of the text,
/// scaled 8 times, with a quiet border of 4 modules. Succeeds exactly on
/// the texts the QR encoder accepts.
pub fn generate_qr_image(data: &str) -> (r: Result<QrImage, QrEncodingError>)
    ensures
        r is Ok <==> qr_encodable(data@),
        r matches Ok(img) ==> spec_qr_image_ok(img, data@),
{
    match qr_encode_modules(data) {
        Some((modules, w)) => {
            let img = render_modules(&modules, w);
            proof {
                assert(spec_image_of_modules(img, qr_modules_of(data@), w as int));
                assert(spec_qr_image_ok(img, data@));
            }
            Ok(img)
        },
        None => Err(QrEncodingError),
    }
}

} // verus!
