use autorec_turbo::license::{
    check_license_status, get_machine_id, network_error_message, plan_license_call,
    reply_error_message, LicensePlan,
};

#[test]
fn machine_id_is_salted_sha256_hex() {
    assert_eq!(
        get_machine_id("ABC123"),
        "20768c2916848c076b4b331128470fa777a4f31e865bb7b0a0ee7ba274add25f"
    );
    assert_eq!(
        get_machine_id("unknown-mac"),
        "85a5c9708a9a46ad28f25fcfeb5547ff27bc76863826c8df0bd7bd59deaf4d2e"
    );
}

#[test]
fn machine_id_is_sixty_four_lower_hex_digits() {
    let id = get_machine_id("any serial at all");
    assert_eq!(id.len(), 64);
    assert!(id.chars().all(|c| c.is_ascii_digit() || ('a'..='f').contains(&c)));
    assert_eq!(id, get_machine_id("any serial at all"));
    assert_ne!(id, get_machine_id("another serial"));
}

#[test]
fn machine_id_hashes_utf8_bytes() {
    assert_eq!(
        get_machine_id("C\u{e9}u"),
        "2a05d6af10f5948c8bc1df3d3013ec183bda090a12d488a273b4bc4059bfef49"
    );
}

#[test]
fn dev_key_is_answered_locally() {
    match plan_license_call("DEV-TESTE-0000", "m", "validate") {
        LicensePlan::Local(r) => {
            assert!(r.valid);
            assert!(r.activated);
            assert_eq!(r.email.as_deref(), Some("dev@autorec.local"));
            assert!(r.error.is_none());
        }
        LicensePlan::Remote(_) => panic!("a development key needs no request"),
    }
}

#[test]
fn other_key_goes_to_the_service() {
    match plan_license_call("AREC-1234", "abcd", "activate") {
        LicensePlan::Remote(req) => {
            assert_eq!(req.key, "AREC-1234");
            assert_eq!(req.machine_id, "abcd");
            assert_eq!(req.action, "activate");
        }
        LicensePlan::Local(_) => panic!("only development keys are answered locally"),
    }
    assert!(matches!(plan_license_call("dev-1", "m", "validate"), LicensePlan::Remote(_)));
    assert!(matches!(plan_license_call("DEV", "m", "validate"), LicensePlan::Remote(_)));
}

#[test]
fn success_statuses_pass() {
    assert!(check_license_status(200, "200 OK").is_ok());
    assert!(check_license_status(299, "299").is_ok());
}

#[test]
fn other_statuses_fail_with_message() {
    assert_eq!(
        check_license_status(404, "404 Not Found"),
        Err("Servidor de licen\u{e7}a retornou erro 404 Not Found.".to_string())
    );
    assert!(check_license_status(199, "199").is_err());
    assert!(check_license_status(300, "300 Multiple Choices").is_err());
}

#[test]
fn error_messages_quote_the_detail() {
    assert_eq!(network_error_message("timeout"), "Erro de rede ao validar licen\u{e7}a: timeout");
    assert_eq!(reply_error_message("eof"), "Resposta inv\u{e1}lida do servidor: eof");
}
