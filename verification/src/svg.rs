//! Display vector graphics in your application.
use vstd::prelude::*;

verus! {

/// The strategy used to fill space in a specific dimension.
#[derive(Debug, Clone, Copy, PartialEq, Eq, Structural)]
pub enum Length {
    /// Fill all the remaining space.
    Fill,
    /// Fill a portion of the remaining space relative to other elements.
    FillPortion(u16),
    /// Fill the least amount of space.
    Shrink,
    /// Fill a fixed amount of space, in whole units.
    Fixed(u16),
}

/// The strategy used to fit the contents of a widget to its bounding box.
#[derive(Debug, Clone, Copy, PartialEq, Eq, Structural)]
pub enum ContentFit {
    /// Scale as big as possible while keeping the aspect ratio and fitting
    /// inside the bounds.
    Contain,
    /// Scale as small as possible while keeping the aspect ratio and covering
    /// the bounds.
    Cover,
    /// Stretch to the bounds, distorting the content if need be.
    Fill,
    /// Do not resize or scale at all.
    Unscaled,
    /// Scale down to fit inside the bounds, but never scale up.
    ScaleDown,
}

/// Where the data of a vector graphic comes from.
#[derive(Debug)]
pub enum Handle {
    /// The graphic is the file at the given path.
    Path(String),
    /// The graphic is held in memory.
    Bytes(Vec<u8>),
}

impl Handle {
    /// Creates a handle that points to the file at the provided path.
    pub fn from_path(path: String) -> (handle: Self)
        ensures
            handle == Handle::Path(path),
    {
        Handle::Path(path)
    }

    /// Creates a handle from the bytes of a graphic held in memory.
    pub fn from_memory(bytes: Vec<u8>) -> (handle: Self)
        ensures
            handle == Handle::Bytes(bytes),
    {
        Handle::Bytes(bytes)
    }
}

/// A vector graphics image.
///
/// An [`Svg`] image resizes smoothly without losing any quality.
pub struct Svg<Style> {
    handle: Handle,
    width: Length,
    height: Length,
    content_fit: ContentFit,
    style: Style,
}

impl<Style> Svg<Style> {
    /// The source of the graphic.
    pub closed spec fn spec_handle(&self) -> Handle {
        self.handle
    }

    /// The width of the widget.
    pub closed spec fn spec_width(&self) -> Length {
        self.width
    }

    /// The height of the widget.
    pub closed spec fn spec_height(&self) -> Length {
        self.height
    }

    /// The way the graphic is fitted to the bounds of the widget.
    pub closed spec fn spec_content_fit(&self) -> ContentFit {
        self.content_fit
    }

    /// The style variant of the widget.
    pub closed spec fn spec_style(&self) -> Style {
        self.style
    }

    /// `self` and `other` agree on everything but their width.
    pub open spec fn same_but_width(&self, other: &Self) -> bool {
        &&& self.spec_handle() == other.spec_handle()
        &&& self.spec_height() == other.spec_height()
        &&& self.spec_content_fit() == other.spec_content_fit()
        &&& self.spec_style() == other.spec_style()
    }

    /// `self` and `other` agree on everything but their height.
    pub open spec fn same_but_height(&self, other: &Self) -> bool {
        &&& self.spec_handle() == other.spec_handle()
        &&& self.spec_width() == other.spec_width()
        &&& self.spec_content_fit() == other.spec_content_fit()
        &&& self.spec_style() == other.spec_style()
    }

    /// `self` and `other` agree on everything but their content fit.
    pub open spec fn same_but_content_fit(&self, other: &Self) -> bool {
        &&& self.spec_handle() == other.spec_handle()
        &&& self.spec_width() == other.spec_width()
        &&& self.spec_height() == other.spec_height()
        &&& self.spec_style() == other.spec_style()
    }

    /// `self` and `other` agree on everything but their style.
    pub open spec fn same_but_style(&self, other: &Self) -> bool {
        &&& self.spec_handle() == other.spec_handle()
        &&& self.spec_width() == other.spec_width()
        &&& self.spec_height() == other.spec_height()
        &&& self.spec_content_fit() == other.spec_content_fit()
    }

    /// Creates a new [`Svg`] from the given [`Handle`]. It fills the width
    /// that is left, takes no more height than it needs, and contains the
    /// graphic in its bounds, in the default style.
    pub fn new(handle: Handle) -> (svg: Self) where Style: Default
        ensures
            svg.spec_handle() == handle,
            svg.spec_width() == Length::Fill,
            svg.spec_height() == Length::Shrink,
            svg.spec_content_fit() == ContentFit::Contain,
            call_ensures(Style::default, (), svg.spec_style()),
    {
        Svg {
            handle,
            width: Length::Fill,
            height: Length::Shrink,
            content_fit: ContentFit::Contain,
            style: Style::default(),
        }
    }

    /// Creates a new [`Svg`] that will display the contents of the file at the
    /// provided path.
    #[must_use]
    pub fn from_path(path: String) -> (svg: Self) where Style: Default
        ensures
            svg.spec_handle() == Handle::Path(path),
            svg.spec_width() == Length::Fill,
            svg.spec_height() == Length::Shrink,
            svg.spec_content_fit() == ContentFit::Contain,
            call_ensures(Style::default, (), svg.spec_style()),
    {
        Self::new(Handle::from_path(path))
    }

    /// Sets the width of the [`Svg`].
    #[must_use]
    pub fn width(self, width: Length) -> (svg: Self)
        ensures
            svg.spec_width() == width,
            svg.same_but_width(&self),
    {
        let mut svg = self;
        svg.width = width;
        svg
    }

    /// Sets the height of the [`Svg`].
    #[must_use]
    pub fn height(self, height: Length) -> (svg: Self)
        ensures
            svg.spec_height() == height,
            svg.same_but_height(&self),
    {
        let mut svg = self;
        svg.height = height;
        svg
    }

    /// Sets the [`ContentFit`] of the [`Svg`].
    ///
    /// Defaults to [`ContentFit::Contain`].
    #[must_use]
    pub fn content_fit(self, content_fit: ContentFit) -> (svg: Self)
        ensures
            svg.spec_content_fit() == content_fit,
            svg.same_but_content_fit(&self),
    {
        Svg { content_fit, ..self }
    }

    /// Sets the style variant of this [`Svg`].
    #[must_use]
    pub fn style(self, style: Style) -> (svg: Self)
        ensures
            svg.spec_style() == style,
            svg.same_but_style(&self),
    {
        let mut svg = self;
        svg.style = style;
        svg
    }

    /// The width and the height of the widget.
    pub fn size(&self) -> (size: (Length, Length))
        ensures
            size == (self.spec_width(), self.spec_height()),
    {
        (self.width, self.height)
    }

    /// The source of the graphic.
    pub fn handle(&self) -> (handle: &Handle)
        ensures
            *handle == self.spec_handle(),
    {
        &self.handle
    }

    /// The way the graphic is fitted to the bounds of the widget.
    pub fn fit(&self) -> (content_fit: ContentFit)
        ensures
            content_fit == self.spec_content_fit(),
    {
        self.content_fit
    }

    /// The style variant of the widget.
    pub fn variant(&self) -> (style: &Style)
        ensures
            *style == self.spec_style(),
    {
        &self.style
    }
}

} // verus!
