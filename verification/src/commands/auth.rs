//! Authentication commands: `save` (the default) stores URL, user and API
//! token; `show` prints the saved block with the token masked; `whoami`
//! checks the credentials against the server.

use vstd::prelude::*;

use crate::cli::{AuthArgs, AuthCmd};
use crate::config::Auth;
use crate::output::{ucfirst, ucfirst_spec, styled_view, Color, Styled, StyledView};

verus! {

/// Which auth action to take: the one asked for, `save` by default.
pub fn run(args: AuthArgs) -> (c: AuthCmd)
    ensures
        c == match args.cmd {
            Some(c) => c,
            None => AuthCmd::Save,
        },
{
    match args.cmd {
        Some(c) => c,
        None => AuthCmd::Save,
    }
}

/// What `auth show` prints for the saved auth block.
pub open spec fn show_spec(auth: Option<Auth>) -> Seq<StyledView> {
    match auth {
        Some(a) => {
            (match a.url {
                Some(u) => seq![StyledView::Field(ucfirst_spec("url"@), u@)],
                None => Seq::<StyledView>::empty(),
            }) + (match a.user {
                Some(u) => seq![StyledView::Field(ucfirst_spec("user"@), u@)],
                None => Seq::<StyledView>::empty(),
            }) + (match a.api_token {
                Some(_) => seq![StyledView::Field(ucfirst_spec("apiToken"@), "********"@)],
                None => Seq::<StyledView>::empty(),
            }) + (if a.complete() {
                Seq::<StyledView>::empty()
            } else {
                seq![StyledView::Text("Incomplete auth info. Run \"jenkins auth save\" again."@, Color::Yellow)]
            })
        },
        None => seq![StyledView::Text("No auth info saved. Run \"jenkins auth save\" first."@, Color::Yellow)],
    }
}

/// The lines `auth show` prints: URL and user as saved, the token masked,
/// and a note when something is missing.
pub fn show_lines(auth: &Option<Auth>) -> (lines: Vec<Styled>)
    ensures
        styled_view(lines@) == show_spec(*auth),
{
    let mut lines: Vec<Styled> = Vec::new();
    match auth {
        Some(a) => {
            match &a.url {
                Some(u) => {
                    lines.push(Styled::Field { key: ucfirst("url"), value: u.clone() });
                },
                None => {},
            }
            match &a.user {
                Some(u) => {
                    lines.push(Styled::Field { key: ucfirst("user"), value: u.clone() });
                },
                None => {},
            }
            if a.api_token.is_some() {
                lines.push(Styled::Field { key: ucfirst("apiToken"), value: "********".to_owned() });
            }
            if !a.is_complete() {
                lines.push(Styled::Text {
                    text: "Incomplete auth info. Run \"jenkins auth save\" again.".to_owned(),
                    color: Color::Yellow,
                });
            }
            assert(styled_view(lines@) =~= show_spec(*auth));
        },
        None => {
            lines.push(Styled::Text {
                text: "No auth info saved. Run \"jenkins auth save\" first.".to_owned(),
                color: Color::Yellow,
            });
            assert(styled_view(lines@) =~= show_spec(*auth));
        },
    }
    lines
}

} // verus!
