//! Links.

use crate::block::text::{IntoText, Text, TextView};
use crate::escape::{push_quoted, quoted};
use vstd::prelude::*;

verus! {

/// Where a link leads.
#[derive(Debug, Clone, PartialEq, Eq)]
pub enum LinkDestination {
    /// An address outside the document.
    Url(String),
    /// The name of a location in the document.
    Location(String),
}

/// Where a link leads, as the markup sees it.
pub enum DestinationView {
    /// An address outside the document.
    Url(Seq<char>),
    /// The name of a location in the document.
    Location(Seq<char>),
}

impl DestinationView {
    /// The argument of the link call that names the destination: an address
    /// as a quoted string, a location as it stands.
    pub open spec fn markup(self) -> Seq<char> {
        match self {
            DestinationView::Url(url) => "target: "@ + quoted(url),
            DestinationView::Location(location) => "location: "@ + location,
        }
    }
}

impl View for LinkDestination {
    type V = DestinationView;

    open spec fn view(&self) -> DestinationView {
        match self {
            LinkDestination::Url(url) => DestinationView::Url(url@),
            LinkDestination::Location(location) => DestinationView::Location(location@),
        }
    }
}

/// A link as the markup sees it.
#[verifier::ext_equal]
pub struct LinkView {
    /// Where the link leads.
    pub destination: DestinationView,
    /// The text that is shown.
    pub content: TextView,
}

impl LinkView {
    /// The markup of the link as a block of its own: the call with its
    /// destination, the shown text in square brackets and an empty line.
    pub open spec fn markup(self) -> Seq<char> {
        "#link("@ + self.destination.markup() + ")["@ + self.content.markup() + "]\n\n"@
    }
}

/// A link to an address or to a location in the document.
#[derive(Debug, Clone)]
pub struct Link {
    destination: LinkDestination,
    content: Text,
}

impl View for Link {
    type V = LinkView;

    closed spec fn view(&self) -> LinkView {
        LinkView { destination: self.destination@, content: self.content@ }
    }
}

impl Link {
    /// A link to the address `url` that shows `content`.
    pub fn to_url<C: IntoText>(url: &str, content: C) -> (link: Self)
        ensures
            link@ == (LinkView { destination: DestinationView::Url(url@), content: content.text() }),
    {
        Link { destination: LinkDestination::Url(url.to_owned()), content: content.into_text() }
    }

    /// A link to the location `location` that shows `content`.
    pub fn to_location<C: IntoText>(location: &str, content: C) -> (link: Self)
        ensures
            link@ == (LinkView {
                destination: DestinationView::Location(location@),
                content: content.text(),
            }),
    {
        Link {
            destination: LinkDestination::Location(location.to_owned()),
            content: content.into_text(),
        }
    }

    /// Appends the link to `output`.
    pub fn render(&self, output: &mut String)
        ensures
            final(output)@ == old(output)@ + self@.markup(),
    {
        output.append("#link(");
        match &self.destination {
            LinkDestination::Url(url) => {
                output.append("target: ");
                push_quoted(output, url.as_str());
            },
            LinkDestination::Location(location) => {
                output.append("location: ");
                output.append(location.as_str());
            },
        }
        output.append(")[");
        let shown = self.content.render();
        output.append(shown.as_str());
        output.append("]\n\n");
        assert(output@ =~= old(output)@ + self@.markup());
    }
}

} // verus!
