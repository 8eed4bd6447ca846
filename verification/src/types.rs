//! The answers of the REST interface that hold no fractional numbers, and
//! the small vocabularies that requests and answers use.

use crate::text::lowercase;
use std::collections::HashMap;
use vstd::prelude::*;
use vstd::string::*;

verus! {

/// One ticker of the `/v3/reference/tickers` listing.
#[derive(Clone, Debug)]
pub struct ReferenceTickersResponseTickerV3 {
    pub ticker: String,
    pub name: String,
    pub market: String,
    pub locale: String,
    pub primary_exchange: String,
    pub ticker_type: Option<String>,
    pub active: bool,
    pub currency_name: String,
    pub cik: Option<String>,
    pub composite_figi: Option<String>,
    pub share_class_figi: Option<String>,
    pub last_updated_utc: String,
}

/// The answer of `/v3/reference/tickers`.
#[derive(Clone, Debug)]
pub struct ReferenceTickersResponseV3 {
    pub results: Vec<ReferenceTickersResponseTickerV3>,
    pub status: String,
    pub request_id: String,
    pub count: u32,
    pub next_url: Option<String>,
}

pub type ReferenceTickersResponse = ReferenceTickersResponseV3;

/// The ticker types and index types of `/v2/reference/types`, code to name.
#[derive(Clone, Debug)]
pub struct ReferenceTickerTypesResultsV2 {
    pub types: HashMap<String, String>,
    pub index_types: HashMap<String, String>,
}

/// The answer of `/v2/reference/types`.
#[derive(Clone, Debug)]
pub struct ReferenceTickerTypesResponseV2 {
    pub status: String,
    pub results: ReferenceTickerTypesResultsV2,
}

pub type ReferenceTickerTypesResponse = ReferenceTickerTypesResponseV2;

/// The answer of `/v1/meta/symbols/{ticker}/company`.
#[derive(Clone, Debug)]
pub struct ReferenceTickerDetailsResponseV1 {
    pub logo: String,
    pub exchange: String,
    pub exchange_symbol: String,
    pub ticker_type: String,
    pub name: String,
    pub symbol: String,
    pub listdate: String,
    pub cik: String,
    pub bloomberg: String,
    pub fiji: Option<String>,
    pub sic: u32,
    pub country: String,
    pub industry: String,
    pub sector: String,
    pub marketcap: u64,
    pub employees: u64,
    pub phone: String,
    pub ceo: String,
    pub url: String,
    pub description: String,
    pub hq_address: String,
    pub hq_country: String,
    pub similar: Vec<String>,
    pub tags: Vec<String>,
    pub updated: String,
    pub active: bool,
}

pub type ReferenceTickerDetailsResponse = ReferenceTickerDetailsResponseV1;

/// A postal address of a company.
#[derive(Clone, Debug)]
pub struct Address {
    pub address1: String,
    pub city: String,
    pub state: String,
}

/// The publisher of a news article.
#[derive(Clone, Debug)]
pub struct Publisher {
    pub name: String,
    pub homepage_url: String,
    pub logo_url: String,
    pub favicon_url: String,
}

/// One article of `/v2/reference/news`.
#[derive(Clone, Debug)]
pub struct ReferenceTickerNewsResultsV2 {
    pub id: String,
    pub publisher: Publisher,
    pub title: String,
    pub author: String,
    pub published_utc: String,
    pub article_url: String,
    pub tickers: Option<Vec<String>>,
    pub amp_url: Option<String>,
    pub image_url: Option<String>,
    pub description: Option<String>,
    pub keywords: Option<Vec<String>>,
}

/// The answer of `/v2/reference/news`.
#[derive(Clone, Debug)]
pub struct ReferenceTickerNewsResponseV2 {
    pub results: Vec<ReferenceTickerNewsResultsV2>,
    pub status: String,
    pub request_id: String,
    pub count: u32,
    pub next_url: Option<String>,
}

pub type ReferenceTickerNewsResponse = ReferenceTickerNewsResponseV2;

/// One market of `/v2/reference/markets`.
#[derive(Clone, Debug)]
pub struct Market {
    pub market: String,
    pub desc: String,
}

/// The answer of `/v2/reference/markets`.
#[derive(Clone, Debug)]
pub struct ReferenceMarketsResponseV2 {
    pub status: String,
    pub results: Vec<Market>,
}

pub type ReferenceMarketsResponse = ReferenceMarketsResponseV2;

/// One locale of `/v2/reference/locales`.
#[derive(Clone, Debug)]
pub struct Locale {
    pub locale: String,
    pub name: String,
}

/// The answer of `/v2/reference/locales`.
#[derive(Clone, Debug)]
pub struct ReferenceLocalesResponseV2 {
    pub status: String,
    pub results: Vec<Locale>,
}

pub type ReferenceLocalesResponse = ReferenceLocalesResponseV2;

/// One upcoming holiday of `/v1/marketstatus/upcoming`.
#[derive(Clone, Debug)]
pub struct MarketStatusUpcoming {
    pub exchange: String,
    pub name: String,
    pub date: String,
    pub status: String,
    pub open: Option<String>,
    pub close: Option<String>,
}

pub type ReferenceMarketStatusUpcomingResponse = Vec<MarketStatusUpcoming>;

/// The answer of `/v1/marketstatus/now`.
#[derive(Clone, Debug)]
pub struct ReferenceMarketStatusNowResponseV1 {
    pub market: String,
    pub early_hours: bool,
    pub after_hours: bool,
    pub server_time: String,
    pub exchanges: HashMap<String, String>,
    pub currencies: HashMap<String, String>,
}

pub type ReferenceMarketStatusNowResponse = ReferenceMarketStatusNowResponseV1;

/// One exchange of `/v1/meta/exchanges`.
#[derive(Clone, Debug)]
pub struct StockEquitiesExchangeV1 {
    pub id: u64,
    pub exchange_type: String,
    pub market: String,
    pub mic: Option<String>,
    pub name: String,
    pub tape: Option<String>,
    pub code: Option<String>,
}

pub type StockEquitiesExchangesResponse = Vec<StockEquitiesExchangeV1>;

/// One exchange of `/v1/meta/crypto-exchanges`.
#[derive(Clone, Debug)]
pub struct CryptoExchange {
    pub id: u32,
    pub exchange_type: Option<String>,
    pub market: String,
    pub name: String,
    pub url: String,
    pub locale: Option<String>,
    pub tier: Option<String>,
}

pub type CryptoCryptoExchangesResponse = Vec<CryptoExchange>;

/// The answer of `/v1/meta/conditions/{ticktype}`: condition number to name.
pub type StockEquitiesConditionMappingsResponse = HashMap<u32, String>;


/// The kind of tick whose condition codes are asked for.
#[derive(Clone, Copy, Debug, PartialEq, Eq, Structural)]
pub enum TickType {
    Trades,
    Quotes,
}

impl TickType {
    /// The name of the kind, as it is written in source.
    pub open spec fn name(self) -> Seq<char> {
        match self {
            TickType::Trades => "Trades"@,
            TickType::Quotes => "Quotes"@,
        }
    }

    /// The name of the kind in lower case, as a request path spells it.
    pub open spec fn lowercase(self) -> Seq<char> {
        match self {
            TickType::Trades => "trades"@,
            TickType::Quotes => "quotes"@,
        }
    }

    /// The name of the kind: `Trades` or `Quotes`.
    pub fn to_string(&self) -> (text: String)
        ensures
            text@ == self.name(),
    {
        match self {
            TickType::Trades => String::from_str("Trades"),
            TickType::Quotes => String::from_str("Quotes"),
        }
    }

    /// The name of the kind in lower case: `trades` or `quotes`.
    pub fn to_lowercase(&self) -> (text: &'static str)
        ensures
            text@ == self.lowercase(),
    {
        match self {
            TickType::Trades => "trades",
            TickType::Quotes => "quotes",
        }
    }
}

/// The spelling of a kind of tick in a request path is its name in lower
/// case.
pub proof fn lemma_lowercase_of_name(kind: TickType)
    ensures
        kind.lowercase() == lowercase(kind.name()),
{
    reveal_strlit("Trades");
    reveal_strlit("Quotes");
    reveal_strlit("trades");
    reveal_strlit("quotes");
    assert(kind.lowercase() =~= lowercase(kind.name()));
}

/// How a dividend is paid.
#[derive(Clone, Copy, Debug, PartialEq, Eq, Structural)]
pub enum DividendType {
    /// Consistent dividends paid on schedule.
    CD,
    /// Special cash dividends, not to be expected to be paid consistently.
    SC,
    /// Long-term capital gain distributions.
    LT,
    /// Short-term capital gain distributions.
    ST,
}

impl DividendType {
    /// The two-letter code of the type.
    pub open spec fn code(self) -> Seq<char> {
        match self {
            DividendType::CD => "CD"@,
            DividendType::SC => "SC"@,
            DividendType::LT => "LT"@,
            DividendType::ST => "ST"@,
        }
    }

    /// The two-letter code of the type: `CD`, `SC`, `LT` or `ST`.
    pub fn to_string(&self) -> (text: String)
        ensures
            text@ == self.code(),
    {
        match self {
            DividendType::CD => String::from_str("CD"),
            DividendType::SC => String::from_str("SC"),
            DividendType::LT => String::from_str("LT"),
            DividendType::ST => String::from_str("ST"),
        }
    }
}

// The names of the fundamental accounting concepts, the keys of the
// statements in a financial report.

pub const FAC_ASSETS: &'static str = "assets";

pub const FAC_BALANCE_SHEET_DATE: &'static str = "balance_sheet_date";

pub const FAC_BALANCE_SHEET_FORMAT: &'static str = "balance_sheet_format";

pub const FAC_BENEFITS_COSTS_EXPENSES: &'static str = "benefits_costs_expenses";

pub const FAC_CAPITALIZATION: &'static str = "capitalization";

pub const FAC_COMMITMENTS_AND_CONTINGENCIES: &'static str = "commitments_and_contingencies";

pub const FAC_COMPREHENSIVE_INCOME_LOSS: &'static str = "comprehensive_income_loss";

pub const FAC_COMPREHENSIVE_INCOME_LOSS_ATTRIBUTABLE_TO_NONCONTROLLING_INTEREST: &'static str =
    "comprehensive_income_loss_attributable_to_noncontrolling_interest";

pub const FAC_COMPREHENSIVE_INCOME_LOSS_ATTRIBUTABLE_TO_PARENT: &'static str =
    "comprehensive_income_loss_attributable_to_parent";

pub const FAC_COSTS_AND_EXPENSES: &'static str = "costs_and_expenses";

pub const FAC_COST_OF_REVENUE: &'static str = "cost_of_revenue";

pub const FAC_COST_OF_REVENUE_GOODS: &'static str = "cost_of_revenue_goods";

pub const FAC_COST_OF_REVENUE_SERVICES: &'static str = "cost_of_revenue_services";

pub const FAC_CURRENT_ASSETS: &'static str = "current_assets";

pub const FAC_CURRENT_LIABILITIES: &'static str = "current_liabilities";

pub const FAC_DOCUMENT_TYPE: &'static str = "document_type";

pub const FAC_ENTITY_CENTRAL_INDEX_KEY: &'static str = "entity_central_index_key";

pub const FAC_ENTITY_FILER_CATEGORY: &'static str = "entity_filer_category";

pub const FAC_ENTITY_REGISTRANT_NAME: &'static str = "entity_registrant_name";

pub const FAC_EQUITY: &'static str = "equity";

pub const FAC_EQUITY_ATTRIBUTABLE_TO_NONCONTROLLING_INTEREST: &'static str =
    "equity_attributable_to_noncontrolling_interest";

pub const FAC_EQUITY_ATTRIBUTABLE_TO_PARENT: &'static str = "equity_attributable_to_parent";

pub const FAC_EXCHANGE_GAINS_LOSSES: &'static str = "exchange_gains_losses";

pub const FAC_EXTRAORDINARY_ITEMS_OF_INCOME_EXPENSE_NET_OF_TAX: &'static str =
    "extraordinary_items_of_income_expense_net_of_tax";

pub const FAC_FISCAL_PERIOD_FOCUS: &'static str = "fiscal_period_focus";

pub const FAC_FISCAL_YEAR_END: &'static str = "fiscal_year_end";

pub const FAC_FISCAL_YEAR_FOCUS: &'static str = "fiscal_year_focus";

pub const FAC_FIXED_ASSETS: &'static str = "fixed_assets";

pub const FAC_GAIN_LOSS_ON_DISPOSITION_STOCK_IN_SUBSIDIARY_OR_EQUITY_METHOD_INVESTEE: &'static str =
    "gain_loss_on_disposition_stock_in_subsidiary_or_equity_method_investee";

pub const FAC_GAIN_LOSS_ON_SALE_PREVIOUSLY_UNISSUED_STOCK_BY_SUBSIDIARY_OR_EQUITY_INVESTEE_NONOPERATING_INCOME: &'static str =
    "gain_loss_on_sale_previously_unissued_stock_by_subsidiary_or_equity_investee_nonoperating_income";

pub const FAC_GAIN_LOSS_ON_SALE_PROPERTIES_NET_TAX: &'static str =
    "gain_loss_on_sale_properties_net_tax";

pub const FAC_GROSS_PROFIT: &'static str = "gross_profit";

pub const FAC_INCOME_LOSS_BEFORE_EQUITY_METHOD_INVESTMENTS: &'static str =
    "income_loss_before_equity_method_investments";

pub const FAC_INCOME_LOSS_FROM_CONTINUING_OPERATIONS_AFTER_TAX: &'static str =
    "income_loss_from_continuing_operations_after_tax";

pub const FAC_INCOME_LOSS_FROM_CONTINUING_OPERATIONS_BEFORE_TAX: &'static str =
    "income_loss_from_continuing_operations_before_tax";

pub const FAC_INCOME_LOSS_FROM_DISCONTINUED_OPERATIONS_NET_OF_TAX: &'static str =
    "income_loss_from_discontinued_operations_net_of_tax";

pub const FAC_INCOME_LOSS_FROM_DISCONTINUED_OPERATIONS_NET_OF_TAX_ADJUSTMENT_TO_PRIOR_YEAR_GAIN_LOSS_ON_DISPOSAL: &'static str =
    "income_loss_from_discontinued_operations_net_of_tax_adjustment_to_prior_year_gain_loss_on_disposal";

pub const FAC_INCOME_LOSS_FROM_DISCONTINUED_OPERATIONS_NET_OF_TAX_DURING_PHASE_OUT: &'static str =
    "income_loss_from_discontinued_operations_net_of_tax_during_phase_out";

pub const FAC_INCOME_LOSS_FROM_DISCONTINUED_OPERATIONS_NET_OF_TAX_GAIN_LOSS_ON_DISPOSAL: &'static str =
    "income_loss_from_discontinued_operations_net_of_tax_gain_loss_on_disposal";

pub const FAC_INCOME_LOSS_FROM_DISCONTINUED_OPERATIONS_NET_OF_TAX_PROVISION_FOR_GAIN_LOSS_ON_DISPOSAL: &'static str =
    "income_loss_from_discontinued_operations_net_of_tax_provision_for_gain_loss_on_disposal";

pub const FAC_INCOME_LOSS_FROM_EQUITY_METHOD_INVESTMENTS: &'static str =
    "income_loss_from_equity_method_investments";

pub const FAC_INCOME_STATEMENT_FORMAT: &'static str = "income_statement_format";

pub const FAC_INCOME_STATEMENT_START_PERIOD_YEAR_TO_DATE: &'static str =
    "income_statement_start_period_year_to_date";

pub const FAC_INCOME_TAX_EXPENSE_BENEFIT: &'static str = "income_tax_expense_benefit";

pub const FAC_INCOME_TAX_EXPENSE_BENEFIT_CURRENT: &'static str =
    "income_tax_expense_benefit_current";

pub const FAC_INCOME_TAX_EXPENSE_BENEFIT_DEFERRED: &'static str =
    "income_tax_expense_benefit_deferred";

pub const FAC_INDIRECT_OPERATING_NONOPERATING_COSTS_EXPENSES: &'static str =
    "indirect_operating_nonoperating_costs_expenses";

pub const FAC_INTEREST_AND_DEBT_EXPENSE: &'static str = "interest_and_debt_expense";

pub const FAC_INTEREST_AND_DIVIDEND_INCOME_OPERATING: &'static str =
    "interest_and_dividend_income_operating";

pub const FAC_INTEREST_EXPENSE: &'static str = "interest_expense";

pub const FAC_INTEREST_EXPENSE_OPERATING: &'static str = "interest_expense_operating";

pub const FAC_INTEREST_INCOME_EXPENSE_AFTER_PROVISION_FOR_LOSSES: &'static str =
    "interest_income_expense_after_provision_for_losses";

pub const FAC_INTEREST_INCOME_EXPENSE_OPERATING_NET: &'static str =
    "interest_income_expense_operating_net";

pub const FAC_LIABILITIES: &'static str = "liabilities";

pub const FAC_LIABILITIES_AND_EQUITY: &'static str = "liabilities_and_equity";

pub const FAC_LONG_TERM_DEBT: &'static str = "long_term_debt";

pub const FAC_NET_CASH_FLOW: &'static str = "net_cash_flow";

pub const FAC_NET_CASH_FLOW_CONTINUING: &'static str = "net_cash_flow_continuing";

pub const FAC_NET_CASH_FLOW_DISCONTINUED: &'static str = "net_cash_flow_discontinued";

pub const FAC_NET_CASH_FLOW_FROM_FINANCING_ACTIVITIES: &'static str =
    "net_cash_flow_from_financing_activities";

pub const FAC_NET_CASH_FLOW_FROM_FINANCING_ACTIVITIES_CONTINUING: &'static str =
    "net_cash_flow_from_financing_activities_continuing";

pub const FAC_NET_CASH_FLOW_FROM_FINANCING_ACTIVITIES_DISCONTINUED: &'static str =
    "net_cash_flow_from_financing_activities_discontinued";

pub const FAC_NET_CASH_FLOW_FROM_INVESTING_ACTIVITIES: &'static str =
    "net_cash_flow_from_investing_activities";

pub const FAC_NET_CASH_FLOW_FROM_INVESTING_ACTIVITIES_CONTINUING: &'static str =
    "net_cash_flow_from_investing_activities_continuing";

pub const FAC_NET_CASH_FLOW_FROM_INVESTING_ACTIVITIES_DISCONTINUED: &'static str =
    "net_cash_flow_from_investing_activities_discontinued";

pub const FAC_NET_CASH_FLOW_FROM_OPERATING_ACTIVITIES: &'static str =
    "net_cash_flow_from_operating_activities";

pub const FAC_NET_CASH_FLOW_FROM_OPERATING_ACTIVITIES_CONTINUING: &'static str =
    "net_cash_flow_from_operating_activities_continuing";

pub const FAC_NET_CASH_FLOW_FROM_OPERATING_ACTIVITIES_DISCONTINUED: &'static str =
    "net_cash_flow_from_operating_activities_discontinued";

pub const FAC_NET_INCOME_LOSS: &'static str = "net_income_loss";

pub const FAC_NET_INCOME_LOSS_ATTRIBUTABLE_TO_NONCONTROLLING_INTEREST: &'static str =
    "net_income_loss_attributable_to_noncontrolling_interest";

pub const FAC_NET_INCOME_LOSS_ATTRIBUTABLE_TO_NONCONTROLLING_INTEREST_PLUS_PREFERRED_STOCK_DIVIDENDS_AND_OTHER_ADJUSTMENTS: &'static str =
    "net_income_loss_attributable_to_noncontrolling_interest_plus_preferred_stock_dividends_and_other_adjustments";

pub const FAC_NET_INCOME_LOSS_ATTRIBUTABLE_TO_NONREDEEMABLE_NONCONTROLLING_INTEREST: &'static str =
    "net_income_loss_attributable_to_nonredeemable_noncontrolling_interest";

pub const FAC_NET_INCOME_LOSS_ATTRIBUTABLE_TO_PARENT: &'static str =
    "net_income_loss_attributable_to_parent";

pub const FAC_NET_INCOME_LOSS_ATTRIBUTABLE_TO_REDEEMABLE_NONCONTROLLING_INTEREST: &'static str =
    "net_income_loss_attributable_to_redeemable_noncontrolling_interest";

pub const FAC_NET_INCOME_LOSS_AVAILABLE_TO_COMMON_STOCKHOLDERS_BASIC: &'static str =
    "net_income_loss_available_to_common_stockholders_basic";

pub const FAC_NONCURRENT_ASSETS: &'static str = "noncurrent_assets";

pub const FAC_NONCURRENT_LIABILITIES: &'static str = "noncurrent_liabilities";

pub const FAC_NONINTEREST_EXPENSE: &'static str = "noninterest_expense";

pub const FAC_NONINTEREST_INCOME: &'static str = "noninterest_income";

pub const FAC_NONOPERATING_GAINS_LOSSES: &'static str = "nonoperating_gains_losses";

pub const FAC_NONOPERATING_INCOME_LOSS: &'static str = "nonoperating_income_loss";

pub const FAC_NONOPERATING_INCOME_LOSS_PLUS_INTEREST_AND_DEBT_EXPENSE: &'static str =
    "nonoperating_income_loss_plus_interest_and_debt_expense";

pub const FAC_NONOPERATING_INCOME_PLUS_INTEREST_AND_DEBT_EXPENSE_PLUS_INCOME_FROM_EQUITY_METHOD_INVESTMENTS: &'static str =
    "nonoperating_income_plus_interest_and_debt_expense_plus_income_from_equity_method_investments";

pub const FAC_OPERATING_AND_NONOPERATING_COSTS_AND_EXPENSES: &'static str =
    "operating_and_nonoperating_costs_and_expenses";

pub const FAC_OPERATING_AND_NONOPERATING_REVENUES: &'static str =
    "operating_and_nonoperating_revenues";

pub const FAC_OPERATING_EXPENSES: &'static str = "operating_expenses";

pub const FAC_OPERATING_INCOME_LOSS: &'static str = "operating_income_loss";

pub const FAC_OTHER_COMPREHENSIVE_INCOME_LOSS: &'static str = "other_comprehensive_income_loss";

pub const FAC_OTHER_COMPREHENSIVE_INCOME_LOSS_ATTRIBUTABLE_TO_NONCONTROLLING_INTEREST: &'static str =
    "other_comprehensive_income_loss_attributable_to_noncontrolling_interest";

pub const FAC_OTHER_COMPREHENSIVE_INCOME_LOSS_ATTRIBUTABLE_TO_PARENT: &'static str =
    "other_comprehensive_income_loss_attributable_to_parent";

pub const FAC_OTHER_NONCURRENT_ASSETS_OF_REGULATED_ENTITY: &'static str =
    "other_noncurrent_assets_of_regulated_entity";

pub const FAC_OTHER_NONCURRENT_LIABILITIES_OF_REGULATED_ENTITY: &'static str =
    "other_noncurrent_liabilities_of_regulated_entity";

pub const FAC_OTHER_OPERATING_INCOME_EXPENSES: &'static str = "other_operating_income_expenses";

pub const FAC_OTHER_THAN_FIXED_NONCURRENT_ASSETS: &'static str =
    "other_than_fixed_noncurrent_assets";

pub const FAC_PARTICIPATING_SECURITIES_DISTRIBUTED_AND_UNDISTRIBUTED_EARNINGS_LOSS_BASIC: &'static str =
    "participating_securities_distributed_and_undistributed_earnings_loss_basic";

pub const FAC_PREFERRED_STOCK_DIVIDENDS_AND_OTHER_ADJUSTMENTS: &'static str =
    "preferred_stock_dividends_and_other_adjustments";

pub const FAC_PROVISION_FOR_LOAN_LEASE_AND_OTHER_LOSSES: &'static str =
    "provision_for_loan_lease_and_other_losses";

pub const FAC_PUBLIC_UTILITIES_PROPERTY_PLANT_AND_EQUIPMENT_NET: &'static str =
    "public_utilities_property_plant_and_equipment_net";

pub const FAC_REDEEMABLE_NONCONTROLLING_INTEREST: &'static str =
    "redeemable_noncontrolling_interest";

pub const FAC_REDEEMABLE_NONCONTROLLING_INTEREST_COMMON: &'static str =
    "redeemable_noncontrolling_interest_common";

pub const FAC_REDEEMABLE_NONCONTROLLING_INTEREST_OTHER: &'static str =
    "redeemable_noncontrolling_interest_other";

pub const FAC_REDEEMABLE_NONCONTROLLING_INTEREST_PREFERRED: &'static str =
    "redeemable_noncontrolling_interest_preferred";

pub const FAC_RETURN_ON_ASSETS: &'static str = "return_on_assets";

pub const FAC_RETURN_ON_EQUITY: &'static str = "return_on_equity";

pub const FAC_RETURN_ON_SALES: &'static str = "return_on_sales";

pub const FAC_REVENUES: &'static str = "revenues";

pub const FAC_REVENUES_EXCLUDING_INTEREST_DIVIDENDS: &'static str =
    "revenues_excluding_interest_dividends";

pub const FAC_REVENUES_NET_INTEREST_EXPENSE: &'static str = "revenues_net_interest_expense";

pub const FAC_TEMPORARY_EQUITY: &'static str = "temporary_equity";

pub const FAC_TEMPORARY_EQUITY_ATTRIBUTABLE_TO_PARENT: &'static str =
    "temporary_equity_attributable_to_parent";

pub const FAC_TRADING_SYMBOL: &'static str = "trading_symbol";

pub const FAC_UNDISTRIBUTED_EARNINGS_LOSS_ALLOCATED_TO_PARTICIPATING_SECURITIES_BASIC: &'static str =
    "undistributed_earnings_loss_allocated_to_participating_securities_basic";

} // verus!
