use currency_service::rates::Rate;
use currency_service::service::{
    ConvertError, CurrencyRequest, CurrencyResponse, CurrencyService, FetchError, FetchPlan,
};

fn service(token: &str, base: &str) -> CurrencyService {
    CurrencyService::new(
        "https://rates.example".to_string(),
        token.to_string(),
        base.to_string(),
    )
}

fn request(symbol: &str, base: &str) -> CurrencyRequest {
    CurrencyRequest { symbol: symbol.to_string(), base: base.to_string() }
}

fn eur_jpy() -> Rate {
    let mut table = Rate::new();
    table.insert("EUR".to_string(), 0.92f32.to_bits());
    table.insert("JPY".to_string(), 157.1f32.to_bits());
    table
}

#[test]
fn convert_returns_the_rate_of_the_symbol() {
    let svc = service("", "USD");
    let answer = svc.convert(&request("EUR", "USD"), Ok(eur_jpy()));
    let response = answer.expect("the table holds EUR");
    assert_eq!(response.to, "EUR");
    assert_eq!(response.base, "USD");
    assert_eq!(f32::from_bits(response.value), 0.92f32);
    assert_eq!(
        response,
        CurrencyResponse {
            to: "EUR".to_string(),
            base: "USD".to_string(),
            value: 0.92f32.to_bits(),
        }
    );
}

#[test]
fn convert_returns_the_second_symbol_too() {
    let svc = service("", "USD");
    let response = svc.convert(&request("JPY", "USD"), Ok(eur_jpy())).unwrap();
    assert_eq!(response.to, "JPY");
    assert_eq!(f32::from_bits(response.value), 157.1f32);
}

#[test]
fn convert_echoes_the_named_base_not_the_default() {
    let svc = service("", "USD");
    let response = svc.convert(&request("EUR", "GBP"), Ok(eur_jpy())).unwrap();
    assert_eq!(response.base, "GBP");
}

#[test]
fn convert_echoes_the_default_base_for_an_empty_base() {
    let svc = service("", "USD");
    let response = svc.convert(&request("EUR", ""), Ok(eur_jpy())).unwrap();
    assert_eq!(response.base, "USD");
}

#[test]
fn convert_maps_a_transport_failure_to_internal() {
    let svc = service("", "USD");
    let answer = svc.convert(&request("EUR", "USD"), Err(FetchError::Transport));
    assert_eq!(answer, Err(ConvertError::Internal));
}

#[test]
fn convert_maps_a_decode_failure_to_internal() {
    let svc = service("", "USD");
    let answer = svc.convert(&request("EUR", "USD"), Err(FetchError::Decode));
    assert_eq!(answer, Err(ConvertError::Internal));
}

#[test]
fn convert_rejects_a_symbol_the_table_lacks() {
    let svc = service("", "USD");
    let answer = svc.convert(&request("CHF", "USD"), Ok(eur_jpy()));
    assert_eq!(answer, Err(ConvertError::UnknownSymbol));
    let answer = svc.convert(&request("eur", "USD"), Ok(eur_jpy()));
    assert_eq!(answer, Err(ConvertError::UnknownSymbol));
    let answer = svc.convert(&request("EUR", "USD"), Ok(Rate::new()));
    assert_eq!(answer, Err(ConvertError::UnknownSymbol));
}

#[test]
fn error_codes_and_messages() {
    assert_eq!(ConvertError::Internal.code(), 13);
    assert_eq!(ConvertError::Internal.message(), "Internal error");
    assert_eq!(ConvertError::UnknownSymbol.code(), 3);
    assert_eq!(ConvertError::UnknownSymbol.message(), "Invalid symbol");
}

#[test]
fn resolve_base_keeps_a_named_base() {
    let svc = service("", "USD");
    assert_eq!(svc.resolve_base("GBP"), "GBP");
    assert_eq!(svc.resolve_base("USD"), "USD");
    assert_eq!(svc.resolve_base(" "), " ");
}

#[test]
fn resolve_base_defaults_an_empty_base() {
    assert_eq!(service("", "USD").resolve_base(""), "USD");
    assert_eq!(service("", "").resolve_base(""), "");
}

#[test]
fn request_url_without_a_token_has_no_token_segment() {
    let svc = service("", "USD");
    assert_eq!(svc.request_url("USD"), "https://rates.example/latest/USD");
}

#[test]
fn request_url_with_a_token_puts_it_before_latest() {
    let svc = service("k-123", "USD");
    assert_eq!(svc.request_url("EUR"), "https://rates.example/k-123/latest/EUR");
}

#[test]
fn request_url_with_an_empty_address() {
    let svc = CurrencyService::new(String::new(), String::new(), String::new());
    assert_eq!(svc.request_url("USD"), "/latest/USD");
}

#[test]
fn plan_fetch_uses_the_resolved_base() {
    let svc = service("k1", "USD");
    let plan = svc.plan_fetch(&request("EUR", ""));
    assert_eq!(
        plan,
        FetchPlan {
            base: "USD".to_string(),
            url: "https://rates.example/k1/latest/USD".to_string(),
        }
    );
    let plan = svc.plan_fetch(&request("EUR", "GBP"));
    assert_eq!(plan.base, "GBP");
    assert_eq!(plan.url, "https://rates.example/k1/latest/GBP");
}

#[test]
fn plan_fetch_plans_every_request_anew() {
    let svc = service("", "USD");
    let req = request("EUR", "USD");
    let mut fetches = 0;
    for _ in 0..3 {
        let plan = svc.plan_fetch(&req);
        assert_eq!(plan.url, "https://rates.example/latest/USD");
        fetches += 1;
        let answer = svc.convert(&req, Ok(eur_jpy()));
        assert!(answer.is_ok());
    }
    assert_eq!(fetches, 3);
}

#[test]
fn default_service_is_empty() {
    let svc = CurrencyService::default();
    assert_eq!(svc.url(), "");
    assert_eq!(svc.token(), "");
    assert_eq!(svc.base(), "");
}

#[test]
fn new_service_keeps_its_settings() {
    let svc = service("tok", "USD");
    assert_eq!(svc.url(), "https://rates.example");
    assert_eq!(svc.token(), "tok");
    assert_eq!(svc.base(), "USD");
}

#[test]
fn rate_table_insert_and_get() {
    let mut table = Rate::new();
    assert_eq!(table.len(), 0);
    assert_eq!(table.get(&"EUR".to_string()), None);
    table.insert("EUR".to_string(), 1);
    table.insert("JPY".to_string(), 2);
    assert_eq!(table.len(), 2);
    assert_eq!(table.get(&"EUR".to_string()), Some(1));
    assert_eq!(table.get(&"JPY".to_string()), Some(2));
    assert!(table.contains(&"EUR".to_string()));
    assert!(!table.contains(&"CHF".to_string()));
}

#[test]
fn rate_table_insert_replaces_a_rate() {
    let mut table = Rate::new();
    table.insert("EUR".to_string(), 1);
    table.insert("JPY".to_string(), 2);
    table.insert("EUR".to_string(), 3);
    assert_eq!(table.len(), 2);
    assert_eq!(table.get(&"EUR".to_string()), Some(3));
    assert_eq!(table.get(&"JPY".to_string()), Some(2));
}

#[test]
fn rate_table_codes_are_case_sensitive() {
    let mut table = Rate::new();
    table.insert("EUR".to_string(), 1);
    table.insert("eur".to_string(), 2);
    assert_eq!(table.len(), 2);
    assert_eq!(table.get(&"EUR".to_string()), Some(1));
    assert_eq!(table.get(&"eur".to_string()), Some(2));
    assert_eq!(table.get(&"Eur".to_string()), None);
}
