//! What a lookup shows for its result: the report on a unit that was found,
//! the message for every other end, and the exit code.
//!
//! Nothing is printed here. Each function returns the text, and the
//! contracts say character by character what that text is.

use vstd::prelude::*;
use vstd::string::*;
use crate::model::{Address, AddressView, Entity, EntityView, LookupError, LookupErrorView,
    Outcome, OutcomeView, RemoteFaultView, Resolved, ResolvedView, UnitKind, result_view};
use crate::text::{decimal, decimal_text, get_norwegian_bool, norwegian_bool, pad_title, padded};

verus! {

/// Exit code of a lookup that found the unit.
pub const EXIT_FOUND: i32 = 0;

/// Exit code of a lookup that failed.
pub const EXIT_FAILED: i32 = 1;

/// Exit code for a number that is in neither namespace.
pub const EXIT_NOT_FOUND: i32 = 90;

/// Exit code for a number whose unit has been struck off.
pub const EXIT_REMOVED: i32 = 91;

/// What stands before a line that continues the value of the line above:
/// blanks up to the column in which values begin.
pub open spec fn continuation() -> Seq<char> {
    padded(""@) + "  "@
}

/// A line with a title and a value.
pub open spec fn titled_line(title: Seq<char>, value: Seq<char>) -> Seq<char> {
    padded(title) + ": "@ + value + "\n"@
}

/// A line with a title and a value, where there is a value.
pub open spec fn optional_line(title: Seq<char>, value: Option<Seq<char>>) -> Seq<char> {
    match value {
        Some(value) => titled_line(title, value),
        None => Seq::empty(),
    }
}

/// A line that answers a question with yes or no, where it is answered.
pub open spec fn flag_line(title: Seq<char>, flag: Option<bool>) -> Seq<char> {
    match flag {
        Some(flag) => titled_line(title, norwegian_bool(flag)),
        None => Seq::empty(),
    }
}

/// The first `count` lines of an address, each on a line of its own: the
/// first as it is, the others as continuations.
pub open spec fn street_lines(lines: Seq<Seq<char>>, count: nat) -> Seq<char>
    decreases count,
{
    if count == 0 {
        Seq::empty()
    } else {
        let before = street_lines(lines, (count - 1) as nat);
        let lead = if count == 1 {
            Seq::empty()
        } else {
            continuation()
        };
        before + lead + lines[count - 1] + "\n"@
    }
}

/// The line with postal code and city: divided by a blank where both are
/// known, else what is known of them.
pub open spec fn postal_line(code: Option<Seq<char>>, city: Option<Seq<char>>) -> Seq<char> {
    match (code, city) {
        (Some(code), Some(city)) => code + " "@ + city + "\n"@,
        (Some(code), None) => code + "\n"@,
        (None, Some(city)) => city + "\n"@,
        (None, None) => "\n"@,
    }
}

/// An address as the value of a titled line: its lines, then the line with
/// postal code and city, which is a continuation unless it is the only one.
pub open spec fn address_text(address: AddressView) -> Seq<char> {
    let lead = if address.lines.len() == 0 {
        Seq::empty()
    } else {
        continuation()
    };
    street_lines(address.lines, address.lines.len()) + lead + postal_line(
        address.postal_code,
        address.city,
    )
}

/// A titled address, where there is one.
pub open spec fn address_block(title: Seq<char>, address: Option<AddressView>) -> Seq<char> {
    match address {
        Some(address) => padded(title) + ": "@ + address_text(address),
        None => Seq::empty(),
    }
}

/// A unit in short: its number and its name.
pub open spec fn short_line(entity: EntityView) -> Seq<char> {
    entity.id + " - "@ + entity.name + "\n"@
}

/// The line that names the parent, where there is one.
pub open spec fn parent_line(parent: Option<EntityView>) -> Seq<char> {
    match parent {
        Some(parent) => padded("Overordnet enhet"@) + ": "@ + short_line(parent),
        None => Seq::empty(),
    }
}

/// The first `count` sub-units in short, each on a line of its own: the
/// first behind the title, the others as continuations.
pub open spec fn children_lines(children: Seq<EntityView>, count: nat) -> Seq<char>
    decreases count,
{
    if count == 0 {
        Seq::empty()
    } else {
        let before = children_lines(children, (count - 1) as nat);
        let lead = if count == 1 {
            " "@
        } else {
            continuation()
        };
        before + lead + short_line(children[count - 1])
    }
}

/// The titled list of sub-units, where there is a list and it is not empty.
pub open spec fn children_block(children: Option<Seq<EntityView>>) -> Seq<char> {
    match children {
        Some(children) => if children.len() > 0 {
            padded("Underenheter (20 første)"@) + ":"@ + children_lines(children, children.len())
        } else {
            Seq::empty()
        },
        None => Seq::empty(),
    }
}

/// The heading of a report names the kind of unit.
pub open spec fn heading(kind: UnitKind) -> Seq<char> {
    match kind {
        UnitKind::MainUnit => "********************** Organisasjon **********************\n"@,
        UnitKind::SubUnit => "********************** Underenhet **********************\n"@,
    }
}

/// The report on a unit that was found.
pub open spec fn report_text(found: ResolvedView) -> Seq<char> {
    let entity = found.entity;
    heading(found.kind) + titled_line("Orgnummer"@, entity.id) + titled_line(
        "Navn"@,
        entity.name,
    ) + optional_line("Slettedato"@, entity.deletion_date) + address_block(
        "Forretningsadresse"@,
        entity.business_address,
    ) + address_block("Postadresse"@, entity.postal_address) + optional_line(
        "Hjemmeside"@,
        entity.homepage,
    ) + optional_line("Registrert i Enhetsregisteret"@, entity.registration_date) + flag_line(
        "Under avvikling"@,
        entity.under_dissolution,
    ) + flag_line(
        "Under tvangsavvikling eller tvangsoppløsning"@,
        entity.under_forced_dissolution,
    ) + parent_line(found.parent) + children_block(found.children)
}

/// Appends what stands before a continuation line.
fn push_continuation(out: &mut String)
    ensures
        final(out)@ == old(out)@ + continuation(),
{
    let blank = pad_title("");
    out.append(blank.as_str());
    out.append("  ");
}

/// Appends a padded title and the colon behind which its value begins.
fn push_title(out: &mut String, title: &str)
    ensures
        final(out)@ == old(out)@ + (padded(title@) + ": "@),
{
    let column = pad_title(title);
    out.append(column.as_str());
    out.append(": ");
}

/// Appends a line with a title and a value.
fn push_titled_line(out: &mut String, title: &str, value: &str)
    ensures
        final(out)@ == old(out)@ + titled_line(title@, value@),
{
    push_title(out, title);
    out.append(value);
    out.append("\n");
}

/// Appends a line with a title and a value, where there is a value.
fn push_optional_line(out: &mut String, title: &str, value: &Option<String>)
    ensures
        final(out)@ == old(out)@ + optional_line(title@, value.deep_view()),
{
    match value {
        Some(value) => push_titled_line(out, title, value.as_str()),
        None => {},
    }
}

/// Appends a yes-or-no line, where the question is answered.
fn push_flag_line(out: &mut String, title: &str, flag: Option<bool>)
    ensures
        final(out)@ == old(out)@ + flag_line(title@, flag),
{
    match flag {
        Some(flag) => push_titled_line(out, title, get_norwegian_bool(flag)),
        None => {},
    }
}

/// Appends an address as the value of a titled line.
fn push_address(out: &mut String, address: &Address)
    ensures
        final(out)@ == old(out)@ + address_text(address.deep_view()),
{
    let ghost lines = address.lines.deep_view();
    let mut done: usize = 0;
    while done < address.lines.len()
        invariant
            done <= address.lines.len(),
            lines == address.lines.deep_view(),
            out@ == old(out)@ + street_lines(lines, done as nat),
        decreases address.lines.len() - done,
    {
        if done != 0 {
            push_continuation(out);
        }
        out.append(address.lines[done].as_str());
        out.append("\n");
        done = done + 1;
    }
    if address.lines.len() != 0 {
        push_continuation(out);
    }
    match &address.postal_code {
        Some(code) => {
            out.append(code.as_str());
            match &address.city {
                Some(city) => {
                    out.append(" ");
                    out.append(city.as_str());
                },
                None => {},
            }
        },
        None => match &address.city {
            Some(city) => {
                out.append(city.as_str());
            },
            None => {},
        },
    }
    out.append("\n");
}

/// Appends a titled address, where there is one.
fn push_address_block(out: &mut String, title: &str, address: &Option<Address>)
    ensures
        final(out)@ == old(out)@ + address_block(title@, address.deep_view()),
{
    match address {
        Some(address) => {
            push_title(out, title);
            push_address(out, address);
        },
        None => {},
    }
}

/// Appends a unit in short.
fn push_short_line(out: &mut String, entity: &Entity)
    ensures
        final(out)@ == old(out)@ + short_line(entity.deep_view()),
{
    out.append(entity.id.as_str());
    out.append(" - ");
    out.append(entity.name.as_str());
    out.append("\n");
}

/// Appends the titled list of sub-units, where there is one to show.
fn push_children_block(out: &mut String, children: &Option<Vec<Entity>>)
    ensures
        final(out)@ == old(out)@ + children_block(children.deep_view()),
{
    match children {
        Some(children) => {
            if children.len() > 0 {
                let ghost list = children.deep_view();
                let column = pad_title("Underenheter (20 første)");
                out.append(column.as_str());
                out.append(":");
                let ghost begun = out@;
                let mut done: usize = 0;
                while done < children.len()
                    invariant
                        done <= children.len(),
                        list == children.deep_view(),
                        out@ == begun + children_lines(list, done as nat),
                    decreases children.len() - done,
                {
                    if done != 0 {
                        push_continuation(out);
                    } else {
                        out.append(" ");
                    }
                    push_short_line(out, &children[done]);
                    done = done + 1;
                }
            }
        },
        None => {},
    }
}

/// The text of an address as the value of a titled line.
pub fn render_address(address: &Address) -> (text: String)
    ensures
        text@ == address_text(address.deep_view()),
{
    let mut text = String::new();
    push_address(&mut text, address);
    text
}

/// The report on a unit that was found.
pub fn render_report(found: &Resolved) -> (text: String)
    ensures
        text@ == report_text(found.deep_view()),
{
    let entity = &found.entity;
    let mut text = match found.kind {
        UnitKind::MainUnit => String::from_str(
            "********************** Organisasjon **********************\n",
        ),
        UnitKind::SubUnit => String::from_str(
            "********************** Underenhet **********************\n",
        ),
    };
    push_titled_line(&mut text, "Orgnummer", entity.id.as_str());
    push_titled_line(&mut text, "Navn", entity.name.as_str());
    push_optional_line(&mut text, "Slettedato", &entity.deletion_date);
    push_address_block(&mut text, "Forretningsadresse", &entity.business_address);
    push_address_block(&mut text, "Postadresse", &entity.postal_address);
    push_optional_line(&mut text, "Hjemmeside", &entity.homepage);
    push_optional_line(&mut text, "Registrert i Enhetsregisteret", &entity.registration_date);
    push_flag_line(&mut text, "Under avvikling", entity.under_dissolution);
    push_flag_line(
        &mut text,
        "Under tvangsavvikling eller tvangsoppløsning",
        entity.under_forced_dissolution,
    );
    match &found.parent {
        Some(parent) => {
            push_title(&mut text, "Overordnet enhet");
            push_short_line(&mut text, parent);
        },
        None => {},
    }
    push_children_block(&mut text, &found.children);
    text
}

/// How the registry's account of a failure is shown; where there is no
/// account, a fixed sentence stands in for it.
pub open spec fn fault_text(fault: Option<RemoteFaultView>) -> Seq<char> {
    match fault {
        Some(fault) => fault.trace + ": "@ + fault.error + " "@ + fault.message,
        None => "Got unparsable 500 internal server error"@,
    }
}

/// The message for a lookup that failed.
pub open spec fn failure_text(error: LookupErrorView) -> Seq<char> {
    match error {
        LookupErrorView::NetworkError(detail) => "Feil under kommunikasjon med brreg: "@ + detail,
        LookupErrorView::UnexpectedResponse(status) => "Uventet svar fra brreg: "@
            + "Got status code "@ + decimal(status as nat),
        LookupErrorView::InternalServerError(fault) => "Trøbbel i tårnet hos brreg: "@
            + fault_text(fault),
        LookupErrorView::JsonParseError(detail) => "Klarte ikke lese svaret fra brreg: "@
            + detail,
        LookupErrorView::Gone => "En referert enhet manglet i brreg, dette var ikke forventet"@,
        LookupErrorView::NotFound => "En referert enhet manglet i brreg, dette var ikke forventet"@,
    }
}

/// The word for a kind of unit in the message on a removed unit.
pub open spec fn removed_word(kind: UnitKind) -> Seq<char> {
    match kind {
        UnitKind::MainUnit => "organisasjon"@,
        UnitKind::SubUnit => "underenhet"@,
    }
}

/// The message for a number whose unit has been struck off.
pub open spec fn removed_text(kind: UnitKind) -> Seq<char> {
    "Denne "@ + removed_word(kind) + "en er fjernet fra brreg"@
}

/// The message for a number that is in neither namespace.
pub open spec fn not_found_text() -> Seq<char> {
    "Fant ikke denne enheten i brreg"@
}

impl LookupError {
    /// The message that tells the user of this failure.
    pub fn message(&self) -> (text: String)
        ensures
            text@ == failure_text(self.deep_view()),
    {
        match self {
            LookupError::NetworkError(detail) => {
                let mut text = String::from_str("Feil under kommunikasjon med brreg: ");
                text.append(detail.as_str());
                text
            },
            LookupError::UnexpectedResponse(status) => {
                let mut text = String::from_str("Uventet svar fra brreg: ");
                text.append("Got status code ");
                let code = decimal_text(*status);
                text.append(code.as_str());
                text
            },
            LookupError::InternalServerError(fault) => {
                let mut text = String::from_str("Trøbbel i tårnet hos brreg: ");
                match fault {
                    Some(fault) => {
                        text.append(fault.trace.as_str());
                        text.append(": ");
                        text.append(fault.error.as_str());
                        text.append(" ");
                        text.append(fault.message.as_str());
                    },
                    None => {
                        text.append("Got unparsable 500 internal server error");
                    },
                }
                text
            },
            LookupError::JsonParseError(detail) => {
                let mut text = String::from_str("Klarte ikke lese svaret fra brreg: ");
                text.append(detail.as_str());
                text
            },
            LookupError::Gone => String::from_str(
                "En referert enhet manglet i brreg, dette var ikke forventet",
            ),
            LookupError::NotFound => String::from_str(
                "En referert enhet manglet i brreg, dette var ikke forventet",
            ),
        }
    }
}

/// How a lookup ends for the user: what goes to standard output, what goes
/// to standard error, and the exit code.
#[derive(Clone, Debug, PartialEq, Eq)]
pub struct Conclusion {
    pub exit_code: i32,
    pub stdout: String,
    pub stderr: String,
}

/// View of a [`Conclusion`].
pub struct ConclusionView {
    pub exit_code: i32,
    pub stdout: Seq<char>,
    pub stderr: Seq<char>,
}

impl DeepView for Conclusion {
    type V = ConclusionView;

    open spec fn deep_view(&self) -> ConclusionView {
        ConclusionView { exit_code: self.exit_code, stdout: self.stdout@, stderr: self.stderr@ }
    }
}

/// The exit code for the result of a lookup.
pub open spec fn exit_code_of(result: Result<OutcomeView, LookupErrorView>) -> i32 {
    match result {
        Ok(OutcomeView::Found(_)) => EXIT_FOUND,
        Ok(OutcomeView::NotFound) => EXIT_NOT_FOUND,
        Ok(OutcomeView::Removed(_, _)) => EXIT_REMOVED,
        Err(_) => EXIT_FAILED,
    }
}

/// How the result of a lookup ends for the user: a unit that was found is
/// reported on standard output; every other end is one line on standard
/// error.
pub open spec fn conclusion_of(result: Result<OutcomeView, LookupErrorView>) -> ConclusionView {
    let exit_code = exit_code_of(result);
    match result {
        Ok(OutcomeView::Found(found)) => ConclusionView {
            exit_code,
            stdout: report_text(found),
            stderr: Seq::empty(),
        },
        Ok(OutcomeView::NotFound) => ConclusionView {
            exit_code,
            stdout: Seq::empty(),
            stderr: not_found_text() + "\n"@,
        },
        Ok(OutcomeView::Removed(kind, _)) => ConclusionView {
            exit_code,
            stdout: Seq::empty(),
            stderr: removed_text(kind) + "\n"@,
        },
        Err(error) => ConclusionView {
            exit_code,
            stdout: Seq::empty(),
            stderr: failure_text(error) + "\n"@,
        },
    }
}

/// The exit code for the result of a lookup.
pub fn exit_code(result: &Result<Outcome, LookupError>) -> (code: i32)
    ensures
        code == exit_code_of(result_view(*result)),
{
    match result {
        Ok(Outcome::Found(_)) => EXIT_FOUND,
        Ok(Outcome::NotFound) => EXIT_NOT_FOUND,
        Ok(Outcome::Removed(_, _)) => EXIT_REMOVED,
        Err(_) => EXIT_FAILED,
    }
}

/// Says how the result of a lookup ends for the user.
pub fn conclude(result: &Result<Outcome, LookupError>) -> (conclusion: Conclusion)
    ensures
        conclusion.deep_view() == conclusion_of(result_view(*result)),
{
    let exit_code = exit_code(result);
    match result {
        Ok(Outcome::Found(found)) => Conclusion {
            exit_code,
            stdout: render_report(found),
            stderr: String::new(),
        },
        Ok(Outcome::NotFound) => {
            let mut stderr = String::from_str("Fant ikke denne enheten i brreg");
            stderr.append("\n");
            Conclusion { exit_code, stdout: String::new(), stderr }
        },
        Ok(Outcome::Removed(kind, _)) => {
            let mut stderr = String::from_str("Denne ");
            match kind {
                UnitKind::MainUnit => stderr.append("organisasjon"),
                UnitKind::SubUnit => stderr.append("underenhet"),
            }
            stderr.append("en er fjernet fra brreg");
            stderr.append("\n");
            Conclusion { exit_code, stdout: String::new(), stderr }
        },
        Err(error) => {
            let mut stderr = error.message();
            stderr.append("\n");
            Conclusion { exit_code, stdout: String::new(), stderr }
        },
    }
}

} // verus!
