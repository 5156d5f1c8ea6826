use balance_watcher::{
    assess, assess_all, bitcoin_net_balance, bitcoin_query_url, format_crypto_balance,
    get_conversion_factor, evm_address_param, parse_quantity, prepare_evm_query, balance_request, route, should_alert, webhook_content, Adapter,
    EntryReport, FetchError, Level, WatchEntry,
};

fn entry(address: &str, chain: &str, rpc_url: &str, alert_balance: u64) -> WatchEntry {
    WatchEntry::new(address.to_string(), chain.to_string(), rpc_url.to_string(), alert_balance)
}

fn alerts(reports: &[EntryReport]) -> usize {
    reports.iter().filter(|r| r.alert.is_some()).count()
}

#[test]
fn alert_boundary() {
    assert!(should_alert(99, 100));
    assert!(!should_alert(100, 100));
    assert!(!should_alert(101, 100));
    assert!(!should_alert(0, 0));
    assert!(should_alert(0, 1));
    assert!(!should_alert(u64::MAX, u64::MAX));
}

#[test]
fn bitcoin_net_balance_subtracts() {
    assert!(matches!(bitcoin_net_balance(40_000_000, 0), Ok(40_000_000)));
    assert!(matches!(bitcoin_net_balance(500, 200), Ok(300)));
    assert!(matches!(bitcoin_net_balance(7, 7), Ok(0)));
}

#[test]
fn bitcoin_net_balance_underflow_is_error() {
    match bitcoin_net_balance(1, 2) {
        Err(FetchError::Underflow { funded, spent }) => {
            assert_eq!(funded, 1);
            assert_eq!(spent, 2);
        }
        _ => panic!("expected an underflow error"),
    }
}

#[test]
fn format_whole_units() {
    assert_eq!(format_crypto_balance(100_000_000, "Bitcoin"), "1.0000 BTC");
    assert_eq!(format_crypto_balance(1_000_000_000_000_000_000, "Ethereum"), "1.0000 ETH");
    assert_eq!(format_crypto_balance(100_000_000, "BTC"), "1.0000 BTC");
}

#[test]
fn format_zero_any_chain() {
    assert_eq!(format_crypto_balance(0, "Bitcoin"), "0.0000 BTC");
    assert_eq!(format_crypto_balance(0, "BTC"), "0.0000 BTC");
    assert_eq!(format_crypto_balance(0, "Ethereum"), "0.0000 ETH");
    assert_eq!(format_crypto_balance(0, "MyChain"), "0.0000 ETH");
    assert_eq!(format_crypto_balance(0, ""), "0.0000 ETH");
}

#[test]
fn format_fractions_and_rounding() {
    assert_eq!(format_crypto_balance(40_000_000, "Bitcoin"), "0.4000 BTC");
    assert_eq!(format_crypto_balance(123_456_789, "Bitcoin"), "1.2346 BTC");
    assert_eq!(format_crypto_balance(12_344_999, "Bitcoin"), "0.1234 BTC");
    assert_eq!(format_crypto_balance(2_500_000_000, "Base"), "0.0000 ETH");
    assert_eq!(format_crypto_balance(1_500_000_000_000_000, "Sepolia"), "0.0015 ETH");
    assert_eq!(format_crypto_balance(25_000_000_000, "Bitcoin"), "250.0000 BTC");
}

#[test]
fn format_rounding_ties_to_even() {
    assert_eq!(format_crypto_balance(5_000, "Bitcoin"), "0.0000 BTC");
    assert_eq!(format_crypto_balance(15_000, "Bitcoin"), "0.0002 BTC");
    assert_eq!(format_crypto_balance(25_000, "Bitcoin"), "0.0002 BTC");
}

#[test]
fn format_largest_balance() {
    assert_eq!(format_crypto_balance(u64::MAX, "Ethereum"), "18.4467 ETH");
    assert_eq!(format_crypto_balance(u64::MAX, "Bitcoin"), "184467440737.0955 BTC");
}

#[test]
fn conversion_factors() {
    assert_eq!(get_conversion_factor("Bitcoin"), 100_000_000);
    assert_eq!(get_conversion_factor("BTC"), 100_000_000);
    assert_eq!(get_conversion_factor("Ethereum"), 1_000_000_000_000_000_000);
    assert_eq!(get_conversion_factor("bitcoin"), 1_000_000_000_000_000_000);
}

#[test]
fn dispatch_exact_match() {
    assert_eq!(route("Bitcoin"), Adapter::Bitcoin);
    assert_eq!(route("bitcoin"), Adapter::Evm);
    assert_eq!(route("BITCOIN"), Adapter::Evm);
    assert_eq!(route("BTC"), Adapter::Evm);
    assert_eq!(route("Ethereum"), Adapter::Evm);
    assert_eq!(route("Base"), Adapter::Evm);
    assert_eq!(route("MyChain"), Adapter::Evm);
}

#[test]
fn quantity_fits_and_overflows() {
    assert!(matches!(parse_quantity("0x0"), Ok(0)));
    assert!(matches!(parse_quantity("0x1bc16d674ec80000"), Ok(2_000_000_000_000_000_000)));
    assert!(matches!(parse_quantity("0xFF"), Ok(255)));
    assert!(matches!(parse_quantity("0xffffffffffffffff"), Ok(u64::MAX)));
    assert!(matches!(parse_quantity("0x10000000000000000"), Err(FetchError::Overflow)));
    assert!(matches!(parse_quantity("0x"), Err(FetchError::Parse(_))));
    assert!(matches!(parse_quantity("12"), Err(FetchError::Parse(_))));
    assert!(matches!(parse_quantity("0x1g"), Err(FetchError::Parse(_))));
}

#[test]
fn evm_address_forms() {
    let digits = "742d35Cc6634C0532925a3b844Bc454e4438f44e";
    let prefixed = format!("0x{}", digits);
    assert_eq!(evm_address_param(&prefixed).ok(), Some(prefixed.clone()));
    assert_eq!(evm_address_param(digits).ok(), Some(prefixed.clone()));
    assert!(matches!(evm_address_param("0x1234"), Err(FetchError::InvalidAddress(_))));
    assert!(matches!(
        evm_address_param("0x742d35Cc6634C0532925a3b844Bc454e4438f44z"),
        Err(FetchError::InvalidAddress(_))
    ));
    assert!(matches!(evm_address_param(""), Err(FetchError::InvalidAddress(_))));
}

#[test]
fn query_url_and_webhook_content() {
    assert_eq!(
        bitcoin_query_url("tb1qxyz"),
        "https://mempool.space/testnet/api/address/tb1qxyz"
    );
    assert_eq!(webhook_content("low"), "`low`");
}

#[test]
fn error_messages() {
    assert_eq!(
        FetchError::Transport("timed out".to_string()).message(),
        "Request failed: timed out"
    );
    assert_eq!(FetchError::Overflow.message(), "Balance does not fit in 64 bits");
    assert_eq!(
        FetchError::InvalidAddress("bad hex".to_string()).message(),
        "Invalid Ethereum address: bad hex"
    );
}

#[test]
fn bitcoin_entry_below_threshold_alerts_once() {
    let entries = vec![entry("tb1qaddr", "Bitcoin", "", 50_000_000)];
    let fetched = vec![bitcoin_net_balance(40_000_000, 0)];
    let reports = assess_all(&entries, &fetched);
    assert_eq!(reports.len(), 1);
    assert_eq!(alerts(&reports), 1);
    let message = reports[0].alert.as_ref().unwrap();
    assert!(message.contains("0.4000 BTC"));
    assert!(message.contains("tb1qaddr"));
    assert_eq!(reports[0].level, Level::Info);
}

#[test]
fn evm_entry_zero_balance_alerts_once() {
    let entries = vec![entry("0xabc", "Ethereum", "http://localhost:8545", 1)];
    let fetched = vec![parse_quantity("0x0")];
    let reports = assess_all(&entries, &fetched);
    assert_eq!(alerts(&reports), 1);
    assert_eq!(
        reports[0].alert.as_deref(),
        Some("Ethereum balance low: 0.0000 ETH Address: 0xabc")
    );
}

#[test]
fn transport_error_logs_and_does_not_alert() {
    let entries = vec![entry("0xdef", "Base", "http://localhost:8545", 10)];
    let fetched = vec![Err(FetchError::Transport("connection refused".to_string()))];
    let reports = assess_all(&entries, &fetched);
    assert_eq!(alerts(&reports), 0);
    assert_eq!(reports[0].level, Level::Error);
    assert!(reports[0].line.contains("0xdef"));
    assert!(reports[0].line.contains("Base"));
    assert_eq!(
        reports[0].line,
        "Failed to fetch Base balance: Request failed: connection refused address: 0xdef"
    );
}

#[test]
fn failure_does_not_block_neighbours() {
    let entries = vec![
        entry("a1", "Bitcoin", "", 100),
        entry("a2", "Ethereum", "http://x", 100),
        entry("a3", "Bitcoin", "", 100),
    ];
    let fetched = vec![Ok(50), Err(FetchError::Overflow), Ok(500)];
    let reports = assess_all(&entries, &fetched);
    assert_eq!(reports.len(), 3);
    assert_eq!(reports[0].level, Level::Info);
    assert!(reports[0].alert.is_some());
    assert_eq!(reports[1].level, Level::Error);
    assert!(reports[1].alert.is_none());
    assert_eq!(reports[2].level, Level::Info);
    assert!(reports[2].alert.is_none());
    assert_eq!(reports[2].line, "Bitcoin Balance: 0.0000 BTC Address: a3");
}

#[test]
fn equal_balance_does_not_alert() {
    let e = entry("a", "Bitcoin", "", 300);
    let report = assess(&e, &Ok(300));
    assert!(report.alert.is_none());
    let report = assess(&e, &Ok(299));
    assert!(report.alert.is_some());
}

#[test]
fn evm_query_checks_url_then_address() {
    let account = "0x742d35Cc6634C0532925a3b844Bc454e4438f44e";
    assert_eq!(
        prepare_evm_query(account, "http://localhost:8545").ok(),
        Some(account.to_string())
    );
    assert!(matches!(
        prepare_evm_query(account, "not a url"),
        Err(FetchError::InvalidUrl(_))
    ));
    assert!(matches!(
        prepare_evm_query("0x12", "not a url"),
        Err(FetchError::InvalidUrl(_))
    ));
    assert!(matches!(
        prepare_evm_query("0x12", "https://rpc.example.org"),
        Err(FetchError::InvalidAddress(_))
    ));
}

#[test]
fn balance_request_text() {
    let text = balance_request("0x00000000000000000000000000000000000000aa");
    assert_eq!(
        text,
        "{\"jsonrpc\":\"2.0\",\"id\":1,\"method\":\"eth_getBalance\",\"params\":[\"0x00000000000000000000000000000000000000aa\",\"latest\"]}"
    );
    let parsed: serde_json::Value = serde_json::from_str(&text).unwrap();
    assert_eq!(parsed["method"], "eth_getBalance");
    assert_eq!(parsed["params"][1], "latest");
}
