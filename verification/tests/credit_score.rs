use in_memory_db::credit_score::{
    credit_scoreContractState, IncomeFrequency, LABEL_HIGH, LABEL_LOW, LABEL_MEDIUM,
};
use in_memory_db::descriptors::{owned, NO_PROMPTS, SCORE_TOOLS};

#[test]
fn income_frequency_labels_parse() {
    assert_eq!(
        IncomeFrequency::parse(&"High \u{2013} Consistent".to_string()),
        Some(IncomeFrequency::High)
    );
    assert_eq!(
        IncomeFrequency::parse(&"Medium \u{2013} Variable".to_string()),
        Some(IncomeFrequency::Medium)
    );
    assert_eq!(
        IncomeFrequency::parse(&"Low-Unpredictable".to_string()),
        Some(IncomeFrequency::Low)
    );
    assert_eq!(LABEL_HIGH, "High \u{2013} Consistent");
    assert_eq!(LABEL_MEDIUM, "Medium \u{2013} Variable");
    assert_eq!(LABEL_LOW, "Low-Unpredictable");
}

#[test]
fn income_frequency_rejects_other_text() {
    for text in ["", "High", "High - Consistent", "low-unpredictable", "Low \u{2013} Unpredictable"] {
        assert_eq!(IncomeFrequency::parse(&text.to_string()), None);
    }
}

#[test]
fn score_descriptor_names_the_operation() {
    let state = match credit_scoreContractState::new() {
        Ok(state) => state,
        Err(e) => panic!("{}", e),
    };
    let tools = state.tools();
    assert_eq!(tools, SCORE_TOOLS);
    assert!(tools.contains("\"name\": \"get_score\""));
    for name in [
        "account_age_months",
        "monthly_income_avg",
        "income_frequency",
        "monthly_rent",
        "monthly_utilities",
        "missed_payments_count",
    ] {
        assert!(tools.contains(&format!("\"{}\": {{", name)));
    }
    assert_eq!(tools.matches("\"type\": \"function\"").count(), 1);
    assert_eq!(state.prompts(), "{\n  \"prompts\": []\n}");
    assert_eq!(state.prompts(), NO_PROMPTS);
}

#[test]
fn owned_copies_its_text() {
    assert_eq!(owned("abc"), "abc".to_string());
    assert_eq!(owned(""), String::new());
}
