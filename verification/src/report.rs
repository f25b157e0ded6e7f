//! What a command tells the user when it is done.

use vstd::prelude::*;
use vstd::string::*;

verus! {

/// The address of a team's settings page in the web application at
/// `webapp_url`.
pub open spec fn settings_url(webapp_url: Seq<char>, team_id: Seq<char>) -> Seq<char> {
    webapp_url + "/teams/"@ + team_id + "?tab=settings"@
}

/// The report of a successful edit: a mark, the sentence, and on a line of
/// its own the link to the team.
pub open spec fn report_text(mark: Seq<char>, link: Seq<char>) -> Seq<char> {
    mark + " The team has been successfully updated.\n"@ + link
}

/// The address of a team's settings page.
pub fn team_settings_url(webapp_url: &str, team_id: &str) -> (url: String)
    ensures
        url@ == settings_url(webapp_url@, team_id@),
{
    String::from_str(webapp_url).concat("/teams/").concat(team_id).concat("?tab=settings")
}

/// Puts the report of a successful edit together from its painted parts.
pub fn compose_report(mark: &str, link: &str) -> (report: String)
    ensures
        report@ == report_text(mark@, link@),
{
    String::from_str(mark).concat(" The team has been successfully updated.\n").concat(link)
}

/// `Stylize::green` of crossterm, as termimad hands it on, and the styled
/// text written out. Nothing is claimed of the result: whether it holds
/// colour codes depends on the environment of the process.
#[verifier::external_body]
fn paint_green(text: &str) -> (painted: String) {
    termimad::crossterm::style::Stylize::green(text).to_string()
}

/// `style` and `Stylize::with` of crossterm, as termimad hands them on, with
/// the colour of the given parts, and the styled text written out. Nothing is
/// claimed of the result: whether it holds colour codes depends on the
/// environment of the process.
#[verifier::external_body]
fn paint_rgb(text: &str, r: u8, g: u8, b: u8) -> (painted: String) {
    let color = termimad::crossterm::style::Color::Rgb { r, g, b };
    let styled = termimad::crossterm::style::style(text.to_string());
    termimad::crossterm::style::Stylize::with(styled, color).to_string()
}

/// The report of a successful edit of team `team_id`, with a green mark and
/// the link to the team's settings in blue. How the two are painted is up to
/// the terminal library; the text around them is fixed.
pub fn success_report(webapp_url: &str, team_id: &str) -> (report: String)
    ensures
        exists|mark: Seq<char>, link: Seq<char>| report@ == report_text(mark, link),
{
    let url = team_settings_url(webapp_url, team_id);
    let mark = paint_green("\u{2714}");
    let link = paint_rgb(url.as_str(), 0, 135, 255);
    compose_report(mark.as_str(), link.as_str())
}

} // verus!
