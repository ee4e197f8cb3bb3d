//! Figure formats: title, axis labels and size.
use vstd::prelude::*;

verus! {

/// What a [`Format`] holds, texts as sequences of characters.
pub struct FormatView {
    pub title: Option<Seq<char>>,
    pub x_label: Option<Seq<char>>,
    pub y_label: Option<Seq<char>>,
    pub z_label: Option<Seq<char>>,
    pub width: Option<usize>,
    pub height: Option<usize>,
}

impl FormatView {
    /// The format that sets nothing.
    pub open spec fn empty() -> FormatView {
        FormatView {
            title: None,
            x_label: None,
            y_label: None,
            z_label: None,
            width: None,
            height: None,
        }
    }

    /// The format that sets the title and the labels of the x and y axes.
    pub open spec fn labelled_2d(x_label: Seq<char>, y_label: Seq<char>, title: Seq<char>)
        -> FormatView {
        FormatView {
            title: Some(title),
            x_label: Some(x_label),
            y_label: Some(y_label),
            ..FormatView::empty()
        }
    }

    /// The format that sets the title and the labels of all three axes.
    pub open spec fn labelled_3d(
        x_label: Seq<char>,
        y_label: Seq<char>,
        z_label: Seq<char>,
        title: Seq<char>,
    ) -> FormatView {
        FormatView { z_label: Some(z_label), ..FormatView::labelled_2d(x_label, y_label, title) }
    }
}

/// The view of a text that may be absent.
pub open spec fn text_view(text: Option<String>) -> Option<Seq<char>> {
    match text {
        Some(text) => Some(text@),
        None => None,
    }
}

/// Figure format. A field that is `None` leaves the choice to the renderer.
#[derive(Clone, Debug)]
pub struct Format {
    /// Title.
    pub title: Option<String>,
    /// x-axis label.
    pub x_label: Option<String>,
    /// y-axis label.
    pub y_label: Option<String>,
    /// z-axis label.
    pub z_label: Option<String>,
    /// Width (in pixels).
    pub width: Option<usize>,
    /// Height (in pixels).
    pub height: Option<usize>,
}

impl View for Format {
    type V = FormatView;

    open spec fn view(&self) -> FormatView {
        FormatView {
            title: text_view(self.title),
            x_label: text_view(self.x_label),
            y_label: text_view(self.y_label),
            z_label: text_view(self.z_label),
            width: self.width,
            height: self.height,
        }
    }
}

impl Default for Format {
    /// The format that sets nothing.
    fn default() -> (format: Format)
        ensures
            format@ == FormatView::empty(),
    {
        Format { title: None, x_label: None, y_label: None, z_label: None, width: None, height: None }
    }
}

impl Format {
    /// The format that sets the title and the labels of the x and y axes.
    pub fn labelled_2d(x_label: &str, y_label: &str, title: &str) -> (format: Format)
        ensures
            format@ == FormatView::labelled_2d(x_label@, y_label@, title@),
    {
        Format {
            title: Some(title.to_owned()),
            x_label: Some(x_label.to_owned()),
            y_label: Some(y_label.to_owned()),
            z_label: None,
            width: None,
            height: None,
        }
    }

    /// The format that sets the title and the labels of all three axes.
    pub fn labelled_3d(x_label: &str, y_label: &str, z_label: &str, title: &str) -> (format: Format)
        ensures
            format@ == FormatView::labelled_3d(x_label@, y_label@, z_label@, title@),
    {
        Format {
            title: Some(title.to_owned()),
            x_label: Some(x_label.to_owned()),
            y_label: Some(y_label.to_owned()),
            z_label: Some(z_label.to_owned()),
            width: None,
            height: None,
        }
    }
}

} // verus!
