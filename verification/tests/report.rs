//! The texts that a lookup shows, character by character.

use brreg::model::{Address, Entity, LookupError, Outcome, RemoteFault, RemovedEntity, Resolved,
    UnitKind};
use brreg::report::{conclude, exit_code, render_address, render_report, Conclusion, EXIT_FAILED,
    EXIT_FOUND, EXIT_NOT_FOUND, EXIT_REMOVED};
use brreg::text::{decimal_text, get_norwegian_bool, pad_title, MAX_TITLE_LENGTH};

/// Forty-four blanks and two: what stands before a continuation line.
const INDENT: &str = "                                              ";

fn entity(id: &str, name: &str) -> Entity {
    Entity {
        id: id.to_string(),
        name: name.to_string(),
        deletion_date: None,
        registration_date: None,
        business_address: None,
        postal_address: None,
        under_dissolution: None,
        under_forced_dissolution: None,
        homepage: None,
        parent_id: None,
    }
}

fn address(lines: &[&str], postal_code: Option<&str>, city: Option<&str>) -> Address {
    Address {
        lines: lines.iter().map(|line| line.to_string()).collect(),
        postal_code: postal_code.map(|code| code.to_string()),
        city: city.map(|city| city.to_string()),
    }
}

#[test]
fn title_is_padded_to_the_column_width() {
    assert_eq!(MAX_TITLE_LENGTH, 44);
    assert_eq!(pad_title("Navn"), "Navn                                        ");
    assert_eq!(pad_title("Navn").chars().count(), 44);
    assert_eq!(pad_title(""), " ".repeat(44));
    assert_eq!(INDENT.len(), 46);
}

#[test]
fn title_as_wide_as_the_column_or_wider_stays_as_it_is() {
    let exact = "Under tvangsavvikling eller tvangsoppløsning";
    assert_eq!(exact.chars().count(), 44);
    assert_eq!(pad_title(exact), exact);
    let one_less = "Under tvangsavvikling eller tvangsoppløsnin";
    assert_eq!(pad_title(one_less), format!("{} ", one_less));
    let wider = "En tittel som er en god del bredere enn kolonnen er";
    assert!(wider.chars().count() > 44);
    assert_eq!(pad_title(wider), wider);
}

#[test]
fn width_of_a_title_counts_characters_not_bytes() {
    let title = "Første";
    assert_eq!(title.len(), 7);
    let padded = pad_title(title);
    assert_eq!(padded.chars().count(), 44);
    assert_eq!(padded, format!("Første{}", " ".repeat(38)));
}

#[test]
fn yes_and_no_in_norwegian() {
    assert_eq!(get_norwegian_bool(true), "Ja");
    assert_eq!(get_norwegian_bool(false), "Nei");
}

#[test]
fn numbers_in_decimal() {
    assert_eq!(decimal_text(0), "0");
    assert_eq!(decimal_text(7), "7");
    assert_eq!(decimal_text(10), "10");
    assert_eq!(decimal_text(404), "404");
    assert_eq!(decimal_text(418), "418");
    assert_eq!(decimal_text(999), "999");
    assert_eq!(decimal_text(65535), "65535");
}

#[test]
fn address_with_several_lines() {
    let text = render_address(&address(&["Forusbeen 50", "Bygg A"], Some("4035"), Some("STAVANGER")));
    assert_eq!(
        text,
        format!("Forusbeen 50\n{}Bygg A\n{}4035 STAVANGER\n", INDENT, INDENT)
    );
}

#[test]
fn address_with_one_line() {
    let text = render_address(&address(&["Postboks 8500"], Some("4035"), Some("STAVANGER")));
    assert_eq!(text, format!("Postboks 8500\n{}4035 STAVANGER\n", INDENT));
}

#[test]
fn address_without_lines() {
    assert_eq!(render_address(&address(&[], Some("4035"), Some("STAVANGER"))), "4035 STAVANGER\n");
    assert_eq!(render_address(&address(&[], None, None)), "\n");
}

#[test]
fn address_with_only_code_or_only_city() {
    assert_eq!(render_address(&address(&[], Some("4035"), None)), "4035\n");
    assert_eq!(render_address(&address(&[], None, Some("STAVANGER"))), "STAVANGER\n");
    assert_eq!(
        render_address(&address(&["Gata 1"], None, Some("OSLO"))),
        format!("Gata 1\n{}OSLO\n", INDENT)
    );
    assert_eq!(
        render_address(&address(&["Gata 1"], None, None)),
        format!("Gata 1\n{}\n", INDENT)
    );
}

#[test]
fn report_on_a_bare_main_unit() {
    let found = Resolved {
        kind: UnitKind::MainUnit,
        entity: entity("923609016", "EQUINOR ASA"),
        parent: None,
        children: Some(vec![]),
    };
    assert_eq!(
        render_report(&found),
        "********************** Organisasjon **********************\n\
         Orgnummer                                   : 923609016\n\
         Navn                                        : EQUINOR ASA\n"
    );
}

#[test]
fn report_on_a_sub_unit_with_its_parent() {
    let found = Resolved {
        kind: UnitKind::SubUnit,
        entity: entity("973152351", "EQUINOR ASA AVD KONTOR"),
        parent: Some(entity("923609016", "EQUINOR ASA")),
        children: None,
    };
    assert_eq!(
        render_report(&found),
        "********************** Underenhet **********************\n\
         Orgnummer                                   : 973152351\n\
         Navn                                        : EQUINOR ASA AVD KONTOR\n\
         Overordnet enhet                            : 923609016 - EQUINOR ASA\n"
    );
}

#[test]
fn report_with_every_field() {
    let mut subject = entity("923609016", "EQUINOR ASA");
    subject.deletion_date = Some("2030-01-01".to_string());
    subject.registration_date = Some("1995-03-12".to_string());
    subject.business_address = Some(address(&["Forusbeen 50"], Some("4035"), Some("STAVANGER")));
    subject.postal_address =
        Some(address(&["Postboks 8500", "Forus"], Some("4035"), Some("STAVANGER")));
    subject.under_dissolution = Some(false);
    subject.under_forced_dissolution = Some(true);
    subject.homepage = Some("www.equinor.com".to_string());
    subject.parent_id = Some("111111111".to_string());
    let found = Resolved {
        kind: UnitKind::MainUnit,
        entity: subject,
        parent: Some(entity("111111111", "MOR ASA")),
        children: Some(vec![
            entity("973152351", "AVD KONTOR"),
            entity("973861778", "AVD FORSKNING"),
            entity("973861779", "AVD DRIFT"),
        ]),
    };
    let expected = [
        "********************** Organisasjon **********************",
        "Orgnummer                                   : 923609016",
        "Navn                                        : EQUINOR ASA",
        "Slettedato                                  : 2030-01-01",
        "Forretningsadresse                          : Forusbeen 50",
        "                                              4035 STAVANGER",
        "Postadresse                                 : Postboks 8500",
        "                                              Forus",
        "                                              4035 STAVANGER",
        "Hjemmeside                                  : www.equinor.com",
        "Registrert i Enhetsregisteret               : 1995-03-12",
        "Under avvikling                             : Nei",
        "Under tvangsavvikling eller tvangsoppløsning: Ja",
        "Overordnet enhet                            : 111111111 - MOR ASA",
        "Underenheter (20 første)                    : 973152351 - AVD KONTOR",
        "                                              973861778 - AVD FORSKNING",
        "                                              973861779 - AVD DRIFT",
        "",
    ]
    .join("\n");
    assert_eq!(render_report(&found), expected);
}

#[test]
fn report_shows_no_title_for_an_empty_list_of_sub_units() {
    let with_empty = Resolved {
        kind: UnitKind::MainUnit,
        entity: entity("923609016", "EQUINOR ASA"),
        parent: None,
        children: Some(vec![]),
    };
    let without = Resolved { children: None, ..with_empty.clone() };
    assert_eq!(render_report(&with_empty), render_report(&without));
    assert!(!render_report(&with_empty).contains("Underenheter"));
}

#[test]
fn report_with_one_sub_unit() {
    let found = Resolved {
        kind: UnitKind::MainUnit,
        entity: entity("923609016", "EQUINOR ASA"),
        parent: None,
        children: Some(vec![entity("973152351", "AVD KONTOR")]),
    };
    assert_eq!(
        render_report(&found),
        "********************** Organisasjon **********************\n\
         Orgnummer                                   : 923609016\n\
         Navn                                        : EQUINOR ASA\n\
         Underenheter (20 første)                    : 973152351 - AVD KONTOR\n"
    );
}

#[test]
fn message_for_every_failure() {
    let fault = RemoteFault {
        trace: "t-1".to_string(),
        error: "Internal Server Error".to_string(),
        message: "boom".to_string(),
    };
    assert_eq!(
        LookupError::NetworkError("timed out".to_string()).message(),
        "Feil under kommunikasjon med brreg: timed out"
    );
    assert_eq!(
        LookupError::UnexpectedResponse(503).message(),
        "Uventet svar fra brreg: Got status code 503"
    );
    assert_eq!(
        LookupError::InternalServerError(Some(fault)).message(),
        "Trøbbel i tårnet hos brreg: t-1: Internal Server Error boom"
    );
    assert_eq!(
        LookupError::InternalServerError(None).message(),
        "Trøbbel i tårnet hos brreg: Got unparsable 500 internal server error"
    );
    assert_eq!(
        LookupError::JsonParseError("expected value at line 1 column 1".to_string()).message(),
        "Klarte ikke lese svaret fra brreg: expected value at line 1 column 1"
    );
    assert_eq!(
        LookupError::NotFound.message(),
        "En referert enhet manglet i brreg, dette var ikke forventet"
    );
    assert_eq!(
        LookupError::Gone.message(),
        "En referert enhet manglet i brreg, dette var ikke forventet"
    );
}

#[test]
fn exit_code_for_every_end() {
    assert_eq!((EXIT_FOUND, EXIT_FAILED, EXIT_NOT_FOUND, EXIT_REMOVED), (0, 1, 90, 91));
    let found = Resolved {
        kind: UnitKind::SubUnit,
        entity: entity("973152351", "AVD"),
        parent: None,
        children: None,
    };
    let removed = RemovedEntity { id: "1".to_string(), deletion_date: "2".to_string() };
    assert_eq!(exit_code(&Ok(Outcome::Found(found))), 0);
    assert_eq!(exit_code(&Ok(Outcome::NotFound)), 90);
    assert_eq!(exit_code(&Ok(Outcome::Removed(UnitKind::MainUnit, removed.clone()))), 91);
    assert_eq!(exit_code(&Ok(Outcome::Removed(UnitKind::SubUnit, removed))), 91);
    for error in [
        LookupError::NotFound,
        LookupError::Gone,
        LookupError::InternalServerError(None),
        LookupError::NetworkError("x".to_string()),
        LookupError::UnexpectedResponse(302),
        LookupError::JsonParseError("x".to_string()),
    ] {
        assert_eq!(exit_code(&Err(error)), 1);
    }
}

#[test]
fn found_unit_is_reported_on_standard_output() {
    let found = Resolved {
        kind: UnitKind::SubUnit,
        entity: entity("973152351", "AVD"),
        parent: None,
        children: None,
    };
    let conclusion = conclude(&Ok(Outcome::Found(found.clone())));
    assert_eq!(
        conclusion,
        Conclusion { exit_code: 0, stdout: render_report(&found), stderr: String::new() }
    );
}

#[test]
fn every_other_end_is_one_line_on_standard_error() {
    let removed = RemovedEntity { id: "1".to_string(), deletion_date: "2".to_string() };
    assert_eq!(
        conclude(&Ok(Outcome::NotFound)),
        Conclusion {
            exit_code: 90,
            stdout: String::new(),
            stderr: "Fant ikke denne enheten i brreg\n".to_string(),
        }
    );
    assert_eq!(
        conclude(&Ok(Outcome::Removed(UnitKind::MainUnit, removed.clone()))),
        Conclusion {
            exit_code: 91,
            stdout: String::new(),
            stderr: "Denne organisasjonen er fjernet fra brreg\n".to_string(),
        }
    );
    assert_eq!(
        conclude(&Ok(Outcome::Removed(UnitKind::SubUnit, removed))),
        Conclusion {
            exit_code: 91,
            stdout: String::new(),
            stderr: "Denne underenheten er fjernet fra brreg\n".to_string(),
        }
    );
    assert_eq!(
        conclude(&Err(LookupError::UnexpectedResponse(204))),
        Conclusion {
            exit_code: 1,
            stdout: String::new(),
            stderr: "Uventet svar fra brreg: Got status code 204\n".to_string(),
        }
    );
}
