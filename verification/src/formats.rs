//! The raw pixel layouts a decoded frame can be converted to, and the
//! name under which GStreamer knows each of them.

use vstd::prelude::*;

verus! {

/// A raw video pixel layout that decoded frames can be converted to.
#[allow(non_camel_case_types)]
#[derive(Debug, Copy, Clone)]
pub enum PixelFormat {
    I420,
    Yv12,
    Yuy2,
    Uyvy,
    Ayuv,
    Vuya,
    Rgbx,
    Bgrx,
    Xrgb,
    Xbgr,
    Rgba,
    Bgra,
    Argb,
    Abgr,
    Rgb,
    Bgr,
    Y41b,
    Y42b,
    Yvyu,
    Y444,
    V210,
    V216,
    Y210,
    Y410,
    Nv12,
    Nv21,
    Gray8,
    Gray16Be,
    Gray16Le,
    V308,
    Rgb16,
    Bgr16,
    Rgb15,
    Bgr15,
    Uyvp,
    A420,
    Rgb8P,
    Yuv9,
    Yvu9,
    Iyu1,
    Argb64,
    Ayuv64,
    R210,
    I420_10Be,
    I420_10Le,
    I422_10Be,
    I422_10lE,
    Y444_10Be,
    Y444_10Le,
    Gbr,
    Gbr10Be,
    Gbr10Le,
    Nv16,
    Nv24,
    Nv12_64Z32,
    A420_10Be,
    A420_10Le,
    A422_10Be,
    A422_10Le,
    A444_10Be,
    A444_10Le,
    Nv61,
    P010_10Be,
    P010_10Le,
    Iyu2,
    Vyuy,
    Gbra,
    Gbra10Be,
    Gbra10Le,
    Bgr10A2Le,
    Rgb10A2Le,
    Gbr12Be,
    Gbr12Le,
    Gbra12Be,
    Gbra12Le,
    I420_12Be,
    I420_12Le,
    I422_12Be,
    I422_12Le,
    Y444_12Be,
    Y444_12Le,
    Gray10Le32,
    Nv12_10Le32,
    Nv16_10Le32,
    Nv12_10Le40,
}

impl PixelFormat {
    /// The GStreamer format name of this pixel layout, as it appears in the
    /// `format` field of `video/x-raw` caps.
    pub open spec fn gst_name(self) -> Seq<char> {
        match self {
            PixelFormat::I420 => "I420"@,
            PixelFormat::Yv12 => "YV12"@,
            PixelFormat::Yuy2 => "YUY2"@,
            PixelFormat::Uyvy => "UYVY"@,
            PixelFormat::Ayuv => "AYUV"@,
            PixelFormat::Vuya => "VUYA"@,
            PixelFormat::Rgbx => "RGBx"@,
            PixelFormat::Bgrx => "BGRx"@,
            PixelFormat::Xrgb => "xRGB"@,
            PixelFormat::Xbgr => "xBGR"@,
            PixelFormat::Rgba => "RGBA"@,
            PixelFormat::Bgra => "BGRA"@,
            PixelFormat::Argb => "ARGB"@,
            PixelFormat::Abgr => "ABGR"@,
            PixelFormat::Rgb => "RGB"@,
            PixelFormat::Bgr => "BGR"@,
            PixelFormat::Y41b => "Y41B"@,
            PixelFormat::Y42b => "Y42B"@,
            PixelFormat::Yvyu => "YVYU"@,
            PixelFormat::Y444 => "Y444"@,
            PixelFormat::V210 => "v210"@,
            PixelFormat::V216 => "v216"@,
            PixelFormat::Y210 => "Y210"@,
            PixelFormat::Y410 => "Y410"@,
            PixelFormat::Nv12 => "NV12"@,
            PixelFormat::Nv21 => "NV21"@,
            PixelFormat::Gray8 => "GRAY8"@,
            PixelFormat::Gray16Be => "GRAY16_BE"@,
            PixelFormat::Gray16Le => "GRAY16_LE"@,
            PixelFormat::V308 => "v308"@,
            PixelFormat::Rgb16 => "RGB16"@,
            PixelFormat::Bgr16 => "BGR16"@,
            PixelFormat::Rgb15 => "RGB15"@,
            PixelFormat::Bgr15 => "BGR15"@,
            PixelFormat::Uyvp => "UYVP"@,
            PixelFormat::A420 => "A420"@,
            PixelFormat::Rgb8P => "RGB8P"@,
            PixelFormat::Yuv9 => "YUV9"@,
            PixelFormat::Yvu9 => "YVU9"@,
            PixelFormat::Iyu1 => "IYU1"@,
            PixelFormat::Argb64 => "ARGB64"@,
            PixelFormat::Ayuv64 => "AYUV64"@,
            PixelFormat::R210 => "r210"@,
            PixelFormat::I420_10Be => "I420_10BE"@,
            PixelFormat::I420_10Le => "I420_10LE"@,
            PixelFormat::I422_10Be => "I422_10BE"@,
            PixelFormat::I422_10lE => "I422_10LE"@,
            PixelFormat::Y444_10Be => "Y444_10BE"@,
            PixelFormat::Y444_10Le => "Y444_10LE"@,
            PixelFormat::Gbr => "GBR"@,
            PixelFormat::Gbr10Be => "GBR_10BE"@,
            PixelFormat::Gbr10Le => "GBR_10LE"@,
            PixelFormat::Nv16 => "NV16"@,
            PixelFormat::Nv24 => "NV24"@,
            PixelFormat::Nv12_64Z32 => "NV12_64Z32"@,
            PixelFormat::A420_10Be => "A420_10BE"@,
            PixelFormat::A420_10Le => "A420_10LE"@,
            PixelFormat::A422_10Be => "A422_10BE"@,
            PixelFormat::A422_10Le => "A422_10LE"@,
            PixelFormat::A444_10Be => "A444_10BE"@,
            PixelFormat::A444_10Le => "A444_10LE"@,
            PixelFormat::Nv61 => "NV61"@,
            PixelFormat::P010_10Be => "P010_10BE"@,
            PixelFormat::P010_10Le => "P010_10LE"@,
            PixelFormat::Iyu2 => "IYU2"@,
            PixelFormat::Vyuy => "VYUY"@,
            PixelFormat::Gbra => "GBRA"@,
            PixelFormat::Gbra10Be => "GBRA_10BE"@,
            PixelFormat::Gbra10Le => "GBRA_10LE"@,
            PixelFormat::Bgr10A2Le => "BGR10A2_LE"@,
            PixelFormat::Rgb10A2Le => "RGB10A2_LE"@,
            PixelFormat::Gbr12Be => "GBR_12BE"@,
            PixelFormat::Gbr12Le => "GBR_12LE"@,
            PixelFormat::Gbra12Be => "GBRA_12BE"@,
            PixelFormat::Gbra12Le => "GBRA_12LE"@,
            PixelFormat::I420_12Be => "I420_12BE"@,
            PixelFormat::I420_12Le => "I420_12LE"@,
            PixelFormat::I422_12Be => "I422_12BE"@,
            PixelFormat::I422_12Le => "I422_12LE"@,
            PixelFormat::Y444_12Be => "Y444_12BE"@,
            PixelFormat::Y444_12Le => "Y444_12LE"@,
            PixelFormat::Gray10Le32 => "GRAY10_LE32"@,
            PixelFormat::Nv12_10Le32 => "NV12_10LE32"@,
            PixelFormat::Nv16_10Le32 => "NV16_10LE32"@,
            PixelFormat::Nv12_10Le40 => "NV12_10LE40"@,
        }
    }

    /// Returns the GStreamer format name of this pixel layout.
    pub fn to_gst_format(&self) -> (name: &str)
        ensures
            name@ == self.gst_name(),
    {
        match self {
            PixelFormat::I420 => "I420",
            PixelFormat::Yv12 => "YV12",
            PixelFormat::Yuy2 => "YUY2",
            PixelFormat::Uyvy => "UYVY",
            PixelFormat::Ayuv => "AYUV",
            PixelFormat::Vuya => "VUYA",
            PixelFormat::Rgbx => "RGBx",
            PixelFormat::Bgrx => "BGRx",
            PixelFormat::Xrgb => "xRGB",
            PixelFormat::Xbgr => "xBGR",
            PixelFormat::Rgba => "RGBA",
            PixelFormat::Bgra => "BGRA",
            PixelFormat::Argb => "ARGB",
            PixelFormat::Abgr => "ABGR",
            PixelFormat::Rgb => "RGB",
            PixelFormat::Bgr => "BGR",
            PixelFormat::Y41b => "Y41B",
            PixelFormat::Y42b => "Y42B",
            PixelFormat::Yvyu => "YVYU",
            PixelFormat::Y444 => "Y444",
            PixelFormat::V210 => "v210",
            PixelFormat::V216 => "v216",
            PixelFormat::Y210 => "Y210",
            PixelFormat::Y410 => "Y410",
            PixelFormat::Nv12 => "NV12",
            PixelFormat::Nv21 => "NV21",
            PixelFormat::Gray8 => "GRAY8",
            PixelFormat::Gray16Be => "GRAY16_BE",
            PixelFormat::Gray16Le => "GRAY16_LE",
            PixelFormat::V308 => "v308",
            PixelFormat::Rgb16 => "RGB16",
            PixelFormat::Bgr16 => "BGR16",
            PixelFormat::Rgb15 => "RGB15",
            PixelFormat::Bgr15 => "BGR15",
            PixelFormat::Uyvp => "UYVP",
            PixelFormat::A420 => "A420",
            PixelFormat::Rgb8P => "RGB8P",
            PixelFormat::Yuv9 => "YUV9",
            PixelFormat::Yvu9 => "YVU9",
            PixelFormat::Iyu1 => "IYU1",
            PixelFormat::Argb64 => "ARGB64",
            PixelFormat::Ayuv64 => "AYUV64",
            PixelFormat::R210 => "r210",
            PixelFormat::I420_10Be => "I420_10BE",
            PixelFormat::I420_10Le => "I420_10LE",
            PixelFormat::I422_10Be => "I422_10BE",
            PixelFormat::I422_10lE => "I422_10LE",
            PixelFormat::Y444_10Be => "Y444_10BE",
            PixelFormat::Y444_10Le => "Y444_10LE",
            PixelFormat::Gbr => "GBR",
            PixelFormat::Gbr10Be => "GBR_10BE",
            PixelFormat::Gbr10Le => "GBR_10LE",
            PixelFormat::Nv16 => "NV16",
            PixelFormat::Nv24 => "NV24",
            PixelFormat::Nv12_64Z32 => "NV12_64Z32",
            PixelFormat::A420_10Be => "A420_10BE",
            PixelFormat::A420_10Le => "A420_10LE",
            PixelFormat::A422_10Be => "A422_10BE",
            PixelFormat::A422_10Le => "A422_10LE",
            PixelFormat::A444_10Be => "A444_10BE",
            PixelFormat::A444_10Le => "A444_10LE",
            PixelFormat::Nv61 => "NV61",
            PixelFormat::P010_10Be => "P010_10BE",
            PixelFormat::P010_10Le => "P010_10LE",
            PixelFormat::Iyu2 => "IYU2",
            PixelFormat::Vyuy => "VYUY",
            PixelFormat::Gbra => "GBRA",
            PixelFormat::Gbra10Be => "GBRA_10BE",
            PixelFormat::Gbra10Le => "GBRA_10LE",
            PixelFormat::Bgr10A2Le => "BGR10A2_LE",
            PixelFormat::Rgb10A2Le => "RGB10A2_LE",
            PixelFormat::Gbr12Be => "GBR_12BE",
            PixelFormat::Gbr12Le => "GBR_12LE",
            PixelFormat::Gbra12Be => "GBRA_12BE",
            PixelFormat::Gbra12Le => "GBRA_12LE",
            PixelFormat::I420_12Be => "I420_12BE",
            PixelFormat::I420_12Le => "I420_12LE",
            PixelFormat::I422_12Be => "I422_12BE",
            PixelFormat::I422_12Le => "I422_12LE",
            PixelFormat::Y444_12Be => "Y444_12BE",
            PixelFormat::Y444_12Le => "Y444_12LE",
            PixelFormat::Gray10Le32 => "GRAY10_LE32",
            PixelFormat::Nv12_10Le32 => "NV12_10LE32",
            PixelFormat::Nv16_10Le32 => "NV16_10LE32",
            PixelFormat::Nv12_10Le40 => "NV12_10LE40",
        }
    }
}

/// Distinct pixel layouts are requested under distinct GStreamer names, so
/// the name handed to GStreamer always identifies the layout that was asked for.
pub proof fn lemma_gst_name_injective(a: PixelFormat, b: PixelFormat)
    requires
        a.gst_name() == b.gst_name(),
    ensures
        a == b,
{
    // No name is longer than eleven characters: naming the length and each
    // position of the shared name lets the solver compare it with every
    // literal, once the literals' characters are revealed below.
    let n = a.gst_name();
    assert(n.len() == b.gst_name().len());
    assert(n[0] == b.gst_name()[0]);
    assert(n[1] == b.gst_name()[1]);
    assert(n[2] == b.gst_name()[2]);
    assert(n[3] == b.gst_name()[3]);
    assert(n[4] == b.gst_name()[4]);
    assert(n[5] == b.gst_name()[5]);
    assert(n[6] == b.gst_name()[6]);
    assert(n[7] == b.gst_name()[7]);
    assert(n[8] == b.gst_name()[8]);
    assert(n[9] == b.gst_name()[9]);
    assert(n[10] == b.gst_name()[10]);
    reveal_strlit("I420");
    reveal_strlit("YV12");
    reveal_strlit("YUY2");
    reveal_strlit("UYVY");
    reveal_strlit("AYUV");
    reveal_strlit("VUYA");
    reveal_strlit("RGBx");
    reveal_strlit("BGRx");
    reveal_strlit("xRGB");
    reveal_strlit("xBGR");
    reveal_strlit("RGBA");
    reveal_strlit("BGRA");
    reveal_strlit("ARGB");
    reveal_strlit("ABGR");
    reveal_strlit("RGB");
    reveal_strlit("BGR");
    reveal_strlit("Y41B");
    reveal_strlit("Y42B");
    reveal_strlit("YVYU");
    reveal_strlit("Y444");
    reveal_strlit("v210");
    reveal_strlit("v216");
    reveal_strlit("Y210");
    reveal_strlit("Y410");
    reveal_strlit("NV12");
    reveal_strlit("NV21");
    reveal_strlit("GRAY8");
    reveal_strlit("GRAY16_BE");
    reveal_strlit("GRAY16_LE");
    reveal_strlit("v308");
    reveal_strlit("RGB16");
    reveal_strlit("BGR16");
    reveal_strlit("RGB15");
    reveal_strlit("BGR15");
    reveal_strlit("UYVP");
    reveal_strlit("A420");
    reveal_strlit("RGB8P");
    reveal_strlit("YUV9");
    reveal_strlit("YVU9");
    reveal_strlit("IYU1");
    reveal_strlit("ARGB64");
    reveal_strlit("AYUV64");
    reveal_strlit("r210");
    reveal_strlit("I420_10BE");
    reveal_strlit("I420_10LE");
    reveal_strlit("I422_10BE");
    reveal_strlit("I422_10LE");
    reveal_strlit("Y444_10BE");
    reveal_strlit("Y444_10LE");
    reveal_strlit("GBR");
    reveal_strlit("GBR_10BE");
    reveal_strlit("GBR_10LE");
    reveal_strlit("NV16");
    reveal_strlit("NV24");
    reveal_strlit("NV12_64Z32");
    reveal_strlit("A420_10BE");
    reveal_strlit("A420_10LE");
    reveal_strlit("A422_10BE");
    reveal_strlit("A422_10LE");
    reveal_strlit("A444_10BE");
    reveal_strlit("A444_10LE");
    reveal_strlit("NV61");
    reveal_strlit("P010_10BE");
    reveal_strlit("P010_10LE");
    reveal_strlit("IYU2");
    reveal_strlit("VYUY");
    reveal_strlit("GBRA");
    reveal_strlit("GBRA_10BE");
    reveal_strlit("GBRA_10LE");
    reveal_strlit("BGR10A2_LE");
    reveal_strlit("RGB10A2_LE");
    reveal_strlit("GBR_12BE");
    reveal_strlit("GBR_12LE");
    reveal_strlit("GBRA_12BE");
    reveal_strlit("GBRA_12LE");
    reveal_strlit("I420_12BE");
    reveal_strlit("I420_12LE");
    reveal_strlit("I422_12BE");
    reveal_strlit("I422_12LE");
    reveal_strlit("Y444_12BE");
    reveal_strlit("Y444_12LE");
    reveal_strlit("GRAY10_LE32");
    reveal_strlit("NV12_10LE32");
    reveal_strlit("NV16_10LE32");
    reveal_strlit("NV12_10LE40");
}

/// Whether `c` may appear in a GStreamer format name: an ASCII letter, an
/// ASCII digit or an underscore.
pub open spec fn is_format_name_char(c: char) -> bool {
    ('A' <= c && c <= 'Z') || ('a' <= c && c <= 'z') || ('0' <= c && c <= '9') || c == '_'
}

/// Every pixel layout is requested under a non-empty name of at most eleven
/// ASCII letters, digits and underscores, the form GStreamer's format names
/// take.
pub proof fn lemma_gst_name_form(format: PixelFormat)
    ensures
        0 < format.gst_name().len() <= 11,
        forall|i: int|
            0 <= i < format.gst_name().len() ==> is_format_name_char(
                #[trigger] format.gst_name()[i],
            ),
{
    reveal_strlit("I420");
    reveal_strlit("YV12");
    reveal_strlit("YUY2");
    reveal_strlit("UYVY");
    reveal_strlit("AYUV");
    reveal_strlit("VUYA");
    reveal_strlit("RGBx");
    reveal_strlit("BGRx");
    reveal_strlit("xRGB");
    reveal_strlit("xBGR");
    reveal_strlit("RGBA");
    reveal_strlit("BGRA");
    reveal_strlit("ARGB");
    reveal_strlit("ABGR");
    reveal_strlit("RGB");
    reveal_strlit("BGR");
    reveal_strlit("Y41B");
    reveal_strlit("Y42B");
    reveal_strlit("YVYU");
    reveal_strlit("Y444");
    reveal_strlit("v210");
    reveal_strlit("v216");
    reveal_strlit("Y210");
    reveal_strlit("Y410");
    reveal_strlit("NV12");
    reveal_strlit("NV21");
    reveal_strlit("GRAY8");
    reveal_strlit("GRAY16_BE");
    reveal_strlit("GRAY16_LE");
    reveal_strlit("v308");
    reveal_strlit("RGB16");
    reveal_strlit("BGR16");
    reveal_strlit("RGB15");
    reveal_strlit("BGR15");
    reveal_strlit("UYVP");
    reveal_strlit("A420");
    reveal_strlit("RGB8P");
    reveal_strlit("YUV9");
    reveal_strlit("YVU9");
    reveal_strlit("IYU1");
    reveal_strlit("ARGB64");
    reveal_strlit("AYUV64");
    reveal_strlit("r210");
    reveal_strlit("I420_10BE");
    reveal_strlit("I420_10LE");
    reveal_strlit("I422_10BE");
    reveal_strlit("I422_10LE");
    reveal_strlit("Y444_10BE");
    reveal_strlit("Y444_10LE");
    reveal_strlit("GBR");
    reveal_strlit("GBR_10BE");
    reveal_strlit("GBR_10LE");
    reveal_strlit("NV16");
    reveal_strlit("NV24");
    reveal_strlit("NV12_64Z32");
    reveal_strlit("A420_10BE");
    reveal_strlit("A420_10LE");
    reveal_strlit("A422_10BE");
    reveal_strlit("A422_10LE");
    reveal_strlit("A444_10BE");
    reveal_strlit("A444_10LE");
    reveal_strlit("NV61");
    reveal_strlit("P010_10BE");
    reveal_strlit("P010_10LE");
    reveal_strlit("IYU2");
    reveal_strlit("VYUY");
    reveal_strlit("GBRA");
    reveal_strlit("GBRA_10BE");
    reveal_strlit("GBRA_10LE");
    reveal_strlit("BGR10A2_LE");
    reveal_strlit("RGB10A2_LE");
    reveal_strlit("GBR_12BE");
    reveal_strlit("GBR_12LE");
    reveal_strlit("GBRA_12BE");
    reveal_strlit("GBRA_12LE");
    reveal_strlit("I420_12BE");
    reveal_strlit("I420_12LE");
    reveal_strlit("I422_12BE");
    reveal_strlit("I422_12LE");
    reveal_strlit("Y444_12BE");
    reveal_strlit("Y444_12LE");
    reveal_strlit("GRAY10_LE32");
    reveal_strlit("NV12_10LE32");
    reveal_strlit("NV16_10LE32");
    reveal_strlit("NV12_10LE40");
    let n = format.gst_name();
    assert forall|i: int| 0 <= i < n.len() implies is_format_name_char(#[trigger] n[i]) by {
        if i == 0 {
        } else if i == 1 {
        } else if i == 2 {
        } else if i == 3 {
        } else if i == 4 {
        } else if i == 5 {
        } else if i == 6 {
        } else if i == 7 {
        } else if i == 8 {
        } else if i == 9 {
        } else if i == 10 {
        }
    }
}

} // verus!
