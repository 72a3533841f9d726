//! Settings of the conversion tool.
//!
//! Each setting becomes one flag or one pair of arguments of the tool, in a
//! fixed order. A flag is written only when it is on; a setting with a value
//! is always written, also when the value is the default.

use core::time::Duration;
use vstd::prelude::*;
use vstd::std_specs::convert::FromSpecImpl;
use crate::utils::{decimal, decimal_string, duration_millis, millis_of};

verus! {

/// An orientation, i.e. `Landscape` or `Portrait`
#[allow(missing_docs)]
#[derive(Clone, Copy, Debug, Eq, PartialEq, Ord, PartialOrd, Hash)]
pub enum Orientation {
    Landscape,
    Portrait,
}

impl Orientation {
    /// The name the conversion tool is given for the orientation.
    pub open spec fn name(self) -> Seq<char> {
        match self {
            Orientation::Landscape => "Landscape"@,
            Orientation::Portrait => "Portrait"@,
        }
    }

    /// The name the conversion tool is given for the orientation.
    pub fn as_str(self) -> (name: &'static str)
        ensures
            name@ == self.name(),
    {
        match self {
            Orientation::Landscape => "Landscape",
            Orientation::Portrait => "Portrait",
        }
    }
}

impl From<Orientation> for String {
    fn from(orientation: Orientation) -> (name: String)
        ensures
            name@ == orientation.name(),
    {
        orientation.as_str().to_owned()
    }
}

impl FromSpecImpl<Orientation> for String {
    open spec fn obeys_from_spec() -> bool {
        false
    }

    open spec fn from_spec(orientation: Orientation) -> String {
        arbitrary()
    }
}

/// A paper size, i.e. `A4`, `Legal`, `Letter`, etc.
#[derive(Clone, Copy, Debug, Eq, PartialEq, Ord, PartialOrd, Hash)]
pub enum PageSize {
    /// 841 x 1189 mm
    A0,
    /// 594 x 841 mm
    A1,
    /// 420 x 594 mm
    A2,
    /// 297 x 420 mm
    A3,
    /// 210 x 297 mm
    A4,
    /// 148 x 210 mm
    A5,
    /// 105 x 148 mm
    A6,
    /// 74 x 105 mm
    A7,
    /// 52 x 74 mm
    A8,
    /// 37 x 52 mm
    A9,
    /// 1000 x 1414 mm
    B0,
    /// 707 x 1000 mm
    B1,
    /// 500 x 707 mm
    B2,
    /// 353 x 500 mm
    B3,
    /// 250 x 353 mm
    B4,
    /// 176 x 250 mm
    B5,
    /// 125 x 176 mm
    B6,
    /// 88 x 125 mm
    B7,
    /// 62 x 88 mm
    B8,
    /// 33 x 62 mm
    B9,
    /// 31 x 44 mm
    B10,
    /// 163 x 229 mm
    C5E,
    /// 4.125 x 9.5 inches (U.S. Common 10 Envelope)
    Comm10E,
    /// 110 x 220 mm
    DLE,
    /// 7.5 x 10.0 inches
    Executive,
    /// 8.0 x 13.0 inches
    Folio,
    /// 17.0 x 11.0 inches
    Ledger,
    /// 8.5 x 14.0 inches
    Legal,
    /// 8.5 x 11.0 inches
    Letter,
    /// 11.0 x 17.0 inches
    Tabloid,
}

impl PageSize {
    /// The name the conversion tool is given for the paper size.
    pub open spec fn name(self) -> Seq<char> {
        match self {
            PageSize::A0 => "A0"@,
            PageSize::A1 => "A1"@,
            PageSize::A2 => "A2"@,
            PageSize::A3 => "A3"@,
            PageSize::A4 => "A4"@,
            PageSize::A5 => "A5"@,
            PageSize::A6 => "A6"@,
            PageSize::A7 => "A7"@,
            PageSize::A8 => "A8"@,
            PageSize::A9 => "A9"@,
            PageSize::B0 => "B0"@,
            PageSize::B1 => "B1"@,
            PageSize::B2 => "B2"@,
            PageSize::B3 => "B3"@,
            PageSize::B4 => "B4"@,
            PageSize::B5 => "B5"@,
            PageSize::B6 => "B6"@,
            PageSize::B7 => "B7"@,
            PageSize::B8 => "B8"@,
            PageSize::B9 => "B9"@,
            PageSize::B10 => "B10"@,
            PageSize::C5E => "C5E"@,
            PageSize::Comm10E => "Comm10E"@,
            PageSize::DLE => "DLE"@,
            PageSize::Executive => "Executive"@,
            PageSize::Folio => "Folio"@,
            PageSize::Ledger => "Ledger"@,
            PageSize::Legal => "Legal"@,
            PageSize::Letter => "Letter"@,
            PageSize::Tabloid => "Tabloid"@,
        }
    }

    /// The name the conversion tool is given for the paper size.
    pub fn as_str(self) -> (name: &'static str)
        ensures
            name@ == self.name(),
    {
        match self {
            PageSize::A0 => "A0",
            PageSize::A1 => "A1",
            PageSize::A2 => "A2",
            PageSize::A3 => "A3",
            PageSize::A4 => "A4",
            PageSize::A5 => "A5",
            PageSize::A6 => "A6",
            PageSize::A7 => "A7",
            PageSize::A8 => "A8",
            PageSize::A9 => "A9",
            PageSize::B0 => "B0",
            PageSize::B1 => "B1",
            PageSize::B2 => "B2",
            PageSize::B3 => "B3",
            PageSize::B4 => "B4",
            PageSize::B5 => "B5",
            PageSize::B6 => "B6",
            PageSize::B7 => "B7",
            PageSize::B8 => "B8",
            PageSize::B9 => "B9",
            PageSize::B10 => "B10",
            PageSize::C5E => "C5E",
            PageSize::Comm10E => "Comm10E",
            PageSize::DLE => "DLE",
            PageSize::Executive => "Executive",
            PageSize::Folio => "Folio",
            PageSize::Ledger => "Ledger",
            PageSize::Legal => "Legal",
            PageSize::Letter => "Letter",
            PageSize::Tabloid => "Tabloid",
        }
    }
}

impl From<PageSize> for String {
    fn from(page_size: PageSize) -> (name: String)
        ensures
            name@ == page_size.name(),
    {
        page_size.as_str().to_owned()
    }
}

impl FromSpecImpl<PageSize> for String {
    open spec fn obeys_from_spec() -> bool {
        false
    }

    open spec fn from_spec(page_size: PageSize) -> String {
        arbitrary()
    }
}

/// A wkhtmltopdf setting, i.e. `DisableExternalLinks(false)`, `DisableJavascript(false)`, `Dpi(96)`, etc.
#[derive(Clone, Debug)]
pub enum Setting {
    /// Do not make links to remote web pages (default is `false`)
    DisableExternalLinks(bool),
    /// Do not allow web pages to run javascript (default is `false`)
    DisableJavascript(bool),
    /// Turn HTML form fields into pdf form fields (default is `false`)
    EnableForms(bool),
    /// Change the dpi explicitly (this has no effect on X11 based systems) (default is `96`)
    Dpi(usize),
    /// PDF will be generated in grayscale (default is `false`)
    Grayscale(bool),
    /// When embedding images scale them down to this dpi (default is `600`)
    ImageDpi(usize),
    /// When jpeg compressing images use this quality (default is `94`)
    ImageQuality(usize),
    /// Generates lower quality pdf/ps (default is `false`)
    LowQuality(bool),
    /// Wait some milliseconds for javascript finish (default is 200 milliseconds)
    JavascriptDelay(Duration),
    /// Set the page bottom margin (default is `String::from("0.5in")`)
    MarginBottom(String),
    /// Set the page left margin (default is `String::from("0.5in")`)
    MarginLeft(String),
    /// Set the page right margin (default is `String::from("0.5in")`)
    MarginRight(String),
    /// Set the page top margin (default is `String::from("0.5in")`)
    MarginTop(String),
    /// Do not print background (default is `false`)
    NoBackground(bool),
    /// Do not load or print images (default is `false`)
    NoImages(bool),
    /// Do not use lossless compression on pdf objects (default is `false`)
    NoPdfCompression(bool),
    /// Set orientation to Landscape or Portrait (default is `Orientation::Portrait`)
    Orientation(Orientation),
    /// Set paper size to: A4, Letter, etc. (default is `PageSize::Letter`)
    PageSize(PageSize),
    /// Use this zoom factor, written with two decimals as in `1.00` (default is `1.00`)
    Zoom(String),
}

/// The settings as the contracts see them.
pub struct SettingsView {
    pub disable_external_links: bool,
    pub disable_javascript: bool,
    pub enable_forms: bool,
    pub dpi: nat,
    pub grayscale: bool,
    pub image_dpi: nat,
    pub image_quality: nat,
    pub low_quality: bool,
    /// In whole milliseconds.
    pub javascript_delay: nat,
    pub margin_bottom: Seq<char>,
    pub margin_left: Seq<char>,
    pub margin_right: Seq<char>,
    pub margin_top: Seq<char>,
    pub no_background: bool,
    pub no_images: bool,
    pub no_pdf_compression: bool,
    pub orientation: Orientation,
    pub page_size: PageSize,
    pub zoom: Seq<char>,
}

/// The arguments of a flag: its name when it is on, nothing when it is off.
pub open spec fn flag(enabled: bool, name: Seq<char>) -> Seq<Seq<char>> {
    if enabled {
        seq![name]
    } else {
        Seq::empty()
    }
}

/// The arguments of a setting with a value: its name, then the value.
pub open spec fn pair(name: Seq<char>, value: Seq<char>) -> Seq<Seq<char>> {
    seq![name, value]
}

/// What each of the strings holds.
pub open spec fn texts(strings: Seq<String>) -> Seq<Seq<char>> {
    strings.map_values(|text: String| text@)
}

impl SettingsView {
    /// The settings before any is set.
    pub open spec fn initial() -> SettingsView {
        SettingsView {
            disable_external_links: false,
            disable_javascript: false,
            enable_forms: false,
            dpi: 96,
            grayscale: false,
            image_dpi: 600,
            image_quality: 94,
            low_quality: false,
            javascript_delay: 200,
            margin_bottom: "0.5in"@,
            margin_left: "0.5in"@,
            margin_right: "0.5in"@,
            margin_top: "0.5in"@,
            no_background: false,
            no_images: false,
            no_pdf_compression: false,
            orientation: Orientation::Portrait,
            page_size: PageSize::Letter,
            zoom: "1.00"@,
        }
    }

    /// The settings with one of them replaced: the field the setting names
    /// takes its value, and every other field stays.
    pub open spec fn with(self, setting: Setting) -> SettingsView {
        SettingsView {
            disable_external_links: match setting {
                Setting::DisableExternalLinks(v) => v,
                _ => self.disable_external_links,
            },
            disable_javascript: match setting {
                Setting::DisableJavascript(v) => v,
                _ => self.disable_javascript,
            },
            enable_forms: match setting {
                Setting::EnableForms(v) => v,
                _ => self.enable_forms,
            },
            dpi: match setting {
                Setting::Dpi(v) => v as nat,
                _ => self.dpi,
            },
            grayscale: match setting {
                Setting::Grayscale(v) => v,
                _ => self.grayscale,
            },
            image_dpi: match setting {
                Setting::ImageDpi(v) => v as nat,
                _ => self.image_dpi,
            },
            image_quality: match setting {
                Setting::ImageQuality(v) => v as nat,
                _ => self.image_quality,
            },
            low_quality: match setting {
                Setting::LowQuality(v) => v,
                _ => self.low_quality,
            },
            javascript_delay: match setting {
                Setting::JavascriptDelay(v) => millis_of(v),
                _ => self.javascript_delay,
            },
            margin_bottom: match setting {
                Setting::MarginBottom(v) => v@,
                _ => self.margin_bottom,
            },
            margin_left: match setting {
                Setting::MarginLeft(v) => v@,
                _ => self.margin_left,
            },
            margin_right: match setting {
                Setting::MarginRight(v) => v@,
                _ => self.margin_right,
            },
            margin_top: match setting {
                Setting::MarginTop(v) => v@,
                _ => self.margin_top,
            },
            no_background: match setting {
                Setting::NoBackground(v) => v,
                _ => self.no_background,
            },
            no_images: match setting {
                Setting::NoImages(v) => v,
                _ => self.no_images,
            },
            no_pdf_compression: match setting {
                Setting::NoPdfCompression(v) => v,
                _ => self.no_pdf_compression,
            },
            orientation: match setting {
                Setting::Orientation(v) => v,
                _ => self.orientation,
            },
            page_size: match setting {
                Setting::PageSize(v) => v,
                _ => self.page_size,
            },
            zoom: match setting {
                Setting::Zoom(v) => v@,
                _ => self.zoom,
            },
        }
    }

    /// The settings with each of `settings` set in turn, a later one
    /// overriding an earlier one of the same kind.
    pub open spec fn with_all(self, settings: Seq<Setting>) -> SettingsView
        decreases settings.len(),
    {
        if settings.len() == 0 {
            self
        } else {
            self.with_all(settings.drop_last()).with(settings.last())
        }
    }

    /// The arguments the conversion tool is given for these settings.
    pub open spec fn arguments(self) -> Seq<Seq<char>> {
        flag(self.disable_external_links, "--disable-external-links"@)
            + flag(self.disable_javascript, "--disable-javascript"@)
            + flag(self.enable_forms, "--enable-forms"@)
            + pair("--dpi"@, decimal(self.dpi))
            + flag(self.grayscale, "--grayscale"@)
            + pair("--image-dpi"@, decimal(self.image_dpi))
            + pair("--image-quality"@, decimal(self.image_quality))
            + flag(self.low_quality, "--low-quality"@)
            + pair("--javascript-delay"@, decimal(self.javascript_delay))
            + pair("--margin-bottom"@, self.margin_bottom)
            + pair("--margin-left"@, self.margin_left)
            + pair("--margin-right"@, self.margin_right)
            + pair("--margin-top"@, self.margin_top)
            + flag(self.no_background, "--no-background"@)
            + flag(self.no_images, "--no-images"@)
            + flag(self.no_pdf_compression, "--no-pdf-compression"@)
            + pair("--orientation"@, self.orientation.name())
            + pair("--page-size"@, self.page_size.name())
            + pair("--zoom"@, self.zoom)
    }
}

/// The settings the conversion tool is run with.
#[derive(Clone, Debug)]
pub struct Settings {
    disable_external_links: bool,
    disable_javascript: bool,
    enable_forms: bool,
    dpi: usize,
    grayscale: bool,
    image_dpi: usize,
    image_quality: usize,
    low_quality: bool,
    javascript_delay: Duration,
    margin_bottom: String,
    margin_left: String,
    margin_right: String,
    margin_top: String,
    no_background: bool,
    no_images: bool,
    no_pdf_compression: bool,
    orientation: Orientation,
    page_size: PageSize,
    zoom: String,
}

impl View for Settings {
    type V = SettingsView;

    closed spec fn view(&self) -> SettingsView {
        SettingsView {
            disable_external_links: self.disable_external_links,
            disable_javascript: self.disable_javascript,
            enable_forms: self.enable_forms,
            dpi: self.dpi as nat,
            grayscale: self.grayscale,
            image_dpi: self.image_dpi as nat,
            image_quality: self.image_quality as nat,
            low_quality: self.low_quality,
            javascript_delay: millis_of(self.javascript_delay),
            margin_bottom: self.margin_bottom@,
            margin_left: self.margin_left@,
            margin_right: self.margin_right@,
            margin_top: self.margin_top@,
            no_background: self.no_background,
            no_images: self.no_images,
            no_pdf_compression: self.no_pdf_compression,
            orientation: self.orientation,
            page_size: self.page_size,
            zoom: self.zoom@,
        }
    }
}

impl Default for Settings {
    fn default() -> (settings: Settings)
        ensures
            settings@ == SettingsView::initial(),
    {
        Settings {
            disable_external_links: false,
            disable_javascript: false,
            enable_forms: false,
            dpi: 96,
            grayscale: false,
            image_dpi: 600,
            image_quality: 94,
            low_quality: false,
            javascript_delay: Duration::from_millis(200),
            margin_bottom: "0.5in".to_owned(),
            margin_left: "0.5in".to_owned(),
            margin_right: "0.5in".to_owned(),
            margin_top: "0.5in".to_owned(),
            no_background: false,
            no_images: false,
            no_pdf_compression: false,
            orientation: Orientation::Portrait,
            page_size: PageSize::Letter,
            zoom: "1.00".to_owned(),
        }
    }
}

/// Writes a flag behind the arguments if it is on.
fn push_flag(arguments: &mut Vec<String>, enabled: bool, name: &str)
    ensures
        texts(final(arguments)@) == texts(old(arguments)@) + flag(enabled, name@),
{
    if enabled {
        arguments.push(name.to_owned());
    }
    assert(texts(arguments@) =~= texts(old(arguments)@) + flag(enabled, name@));
}

/// Writes a name and its value behind the arguments.
fn push_pair(arguments: &mut Vec<String>, name: &str, value: String)
    ensures
        texts(final(arguments)@) == texts(old(arguments)@) + pair(name@, value@),
{
    arguments.push(name.to_owned());
    arguments.push(value);
    assert(texts(arguments@) =~= texts(old(arguments)@) + pair(name@, value@));
}

impl Settings {
    /// The arguments the conversion tool is given for these settings, in the
    /// order the tool's callers rely on.
    pub fn to_arguments(&self) -> (arguments: Vec<String>)
        ensures
            texts(arguments@) == self@.arguments(),
    {
        let mut arguments: Vec<String> = Vec::new();
        push_flag(&mut arguments, self.disable_external_links, "--disable-external-links");
        assert(texts(arguments@) =~= flag(
            self.disable_external_links,
            "--disable-external-links"@,
        ));
        push_flag(&mut arguments, self.disable_javascript, "--disable-javascript");
        push_flag(&mut arguments, self.enable_forms, "--enable-forms");
        push_pair(&mut arguments, "--dpi", decimal_string(self.dpi as u128));
        push_flag(&mut arguments, self.grayscale, "--grayscale");
        push_pair(&mut arguments, "--image-dpi", decimal_string(self.image_dpi as u128));
        push_pair(&mut arguments, "--image-quality", decimal_string(self.image_quality as u128));
        push_flag(&mut arguments, self.low_quality, "--low-quality");
        push_pair(
            &mut arguments,
            "--javascript-delay",
            decimal_string(duration_millis(self.javascript_delay)),
        );
        push_pair(&mut arguments, "--margin-bottom", self.margin_bottom.clone());
        push_pair(&mut arguments, "--margin-left", self.margin_left.clone());
        push_pair(&mut arguments, "--margin-right", self.margin_right.clone());
        push_pair(&mut arguments, "--margin-top", self.margin_top.clone());
        push_flag(&mut arguments, self.no_background, "--no-background");
        push_flag(&mut arguments, self.no_images, "--no-images");
        push_flag(&mut arguments, self.no_pdf_compression, "--no-pdf-compression");
        push_pair(&mut arguments, "--orientation", String::from(self.orientation));
        push_pair(&mut arguments, "--page-size", String::from(self.page_size));
        push_pair(&mut arguments, "--zoom", self.zoom.clone());
        arguments
    }

    /// Replaces one setting and leaves the others as they are.
    pub fn set(&mut self, setting: Setting)
        ensures
            final(self)@ == old(self)@.with(setting),
    {
        match setting {
            Setting::DisableExternalLinks(_) | Setting::DisableJavascript(_) | Setting::EnableForms(_) | Setting::Grayscale(_) | Setting::LowQuality(_) | Setting::NoBackground(_) | Setting::NoImages(_) | Setting::NoPdfCompression(_) => self.set_toggle(setting),
            Setting::Dpi(_) | Setting::ImageDpi(_) | Setting::ImageQuality(_) | Setting::JavascriptDelay(_) => self.set_measure(setting),
            Setting::MarginBottom(_) | Setting::MarginLeft(_) | Setting::MarginRight(_) | Setting::MarginTop(_) => self.set_margin(setting),
            Setting::Orientation(_) | Setting::PageSize(_) | Setting::Zoom(_) => self.set_layout(setting),
        }
    }

    /// Replaces a switch.
    fn set_toggle(&mut self, setting: Setting)
        requires
            setting is DisableExternalLinks || setting is DisableJavascript || setting is EnableForms || setting is Grayscale || setting is LowQuality || setting is NoBackground || setting is NoImages || setting is NoPdfCompression,
        ensures
            final(self)@ == old(self)@.with(setting),
    {
        match setting {
            Setting::DisableExternalLinks(v) => self.disable_external_links = v,
            Setting::DisableJavascript(v) => self.disable_javascript = v,
            Setting::EnableForms(v) => self.enable_forms = v,
            Setting::Grayscale(v) => self.grayscale = v,
            Setting::LowQuality(v) => self.low_quality = v,
            Setting::NoBackground(v) => self.no_background = v,
            Setting::NoImages(v) => self.no_images = v,
            Setting::NoPdfCompression(v) => self.no_pdf_compression = v,
            _ => {},
        }
    }

    /// Replaces a number or the delay.
    fn set_measure(&mut self, setting: Setting)
        requires
            setting is Dpi || setting is ImageDpi || setting is ImageQuality || setting is JavascriptDelay,
        ensures
            final(self)@ == old(self)@.with(setting),
    {
        match setting {
            Setting::Dpi(v) => self.dpi = v,
            Setting::ImageDpi(v) => self.image_dpi = v,
            Setting::ImageQuality(v) => self.image_quality = v,
            Setting::JavascriptDelay(v) => self.javascript_delay = v,
            _ => {},
        }
    }

    /// Replaces a margin.
    fn set_margin(&mut self, setting: Setting)
        requires
            setting is MarginBottom || setting is MarginLeft || setting is MarginRight || setting is MarginTop,
        ensures
            final(self)@ == old(self)@.with(setting),
    {
        match setting {
            Setting::MarginBottom(v) => self.margin_bottom = v,
            Setting::MarginLeft(v) => self.margin_left = v,
            Setting::MarginRight(v) => self.margin_right = v,
            Setting::MarginTop(v) => self.margin_top = v,
            _ => {},
        }
    }

    /// Replaces the orientation, the paper size or the zoom.
    fn set_layout(&mut self, setting: Setting)
        requires
            setting is Orientation || setting is PageSize || setting is Zoom,
        ensures
            final(self)@ == old(self)@.with(setting),
    {
        match setting {
            Setting::Orientation(v) => self.orientation = v,
            Setting::PageSize(v) => self.page_size = v,
            Setting::Zoom(v) => self.zoom = v,
            _ => {},
        }
    }
}

} // verus!
