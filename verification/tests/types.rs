use polygon_client::types::{
    Address, DividendType, Locale, Market, ReferenceMarketsResponse, ReferenceTickerTypesResultsV2,
    StockEquitiesConditionMappingsResponse, TickType, FAC_ASSETS, FAC_NET_INCOME_LOSS,
    FAC_REVENUES, FAC_UNDISTRIBUTED_EARNINGS_LOSS_ALLOCATED_TO_PARTICIPATING_SECURITIES_BASIC,
};
use std::collections::HashMap;

#[test]
fn tick_type_names() {
    assert_eq!(TickType::Trades.to_string(), "Trades");
    assert_eq!(TickType::Quotes.to_string(), "Quotes");
    assert_eq!(TickType::Trades.to_lowercase(), "trades");
    assert_eq!(TickType::Quotes.to_lowercase(), "quotes");
    for kind in [TickType::Trades, TickType::Quotes] {
        assert_eq!(kind.to_lowercase(), kind.to_string().to_lowercase());
        assert_eq!(kind.to_string(), format!("{:?}", kind));
    }
}

#[test]
fn dividend_type_codes() {
    assert_eq!(DividendType::CD.to_string(), "CD");
    assert_eq!(DividendType::SC.to_string(), "SC");
    assert_eq!(DividendType::LT.to_string(), "LT");
    assert_eq!(DividendType::ST.to_string(), "ST");
}

#[test]
fn accounting_concept_names() {
    assert_eq!(FAC_ASSETS, "assets");
    assert_eq!(FAC_REVENUES, "revenues");
    assert_eq!(FAC_NET_INCOME_LOSS, "net_income_loss");
    assert_eq!(
        FAC_UNDISTRIBUTED_EARNINGS_LOSS_ALLOCATED_TO_PARTICIPATING_SECURITIES_BASIC,
        "undistributed_earnings_loss_allocated_to_participating_securities_basic"
    );
}

#[test]
fn answers_are_plain_data() {
    let markets = ReferenceMarketsResponse {
        status: String::from("OK"),
        results: vec![
            Market { market: String::from("STOCKS"), desc: String::from("Stocks / Equities") },
            Market { market: String::from("BONDS"), desc: String::from("Bonds") },
        ],
    };
    let copy = markets.clone();
    assert_eq!(copy.status, "OK");
    let bond = copy.results.iter().find(|x| x.market == "BONDS");
    assert!(bond.is_some());
    assert_eq!(bond.unwrap().desc, "Bonds");

    let locale = Locale {
        locale: String::from("US"),
        name: String::from("United States of America"),
    };
    assert_eq!(locale.clone().name, "United States of America");

    let address = Address {
        address1: String::from("One Microsoft Way"),
        city: String::from("Redmond"),
        state: String::from("WA"),
    };
    assert_eq!(address.city, "Redmond");

    let mut types = HashMap::new();
    types.insert(String::from("CS"), String::from("Common Stock"));
    let mut index_types = HashMap::new();
    index_types.insert(String::from("INDEX"), String::from("Index"));
    let results = ReferenceTickerTypesResultsV2 { types, index_types };
    assert_eq!(results.types["CS"], "Common Stock");
    assert_eq!(results.index_types["INDEX"], "Index");

    let mut conditions: StockEquitiesConditionMappingsResponse = HashMap::new();
    conditions.insert(0, String::from("Regular"));
    assert!(conditions.iter().any(|x| x.1 == "Regular"));
}
