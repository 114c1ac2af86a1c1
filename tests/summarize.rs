use tender_summarizer::{
    api_prompt, check_api_key, mock_summarize, summarize_scanned, summarize_text_mock,
    summary_text, MockSummaryRequest, API_PROMPT_HEAD, MISSING_KEY_MESSAGE,
};

#[test]
fn test_mock_summarizer_with_tender_document() {
    let sample_text = r#"
        GOVERNMENT OF INDIA
        MINISTRY OF DEFENCE
        TENDER NOTICE
        
        Tender No: MOD/2024/001
        Date: 15/01/2024
        Last Date of Submission: 28/02/2024
        
        Procurement of Computer Equipment
        Estimated Value: ₹50,00,000 (Fifty Lakh Rupees)
        
        Eligibility Criteria:
        - Minimum 3 years experience in IT equipment supply
        - Annual turnover of at least ₹1 crore
        - Valid GST registration
        
        Contact Details:
        Email: procurement@mod.gov.in
        Phone: +91-11-23011234
        
        Penalties:
        - Late submission: ₹10,000 per day
        - Non-compliance: 5% of contract value
        
        Required Documents:
        1. Company registration certificate
        2. GST certificate
        3. Financial statements
        4. Technical specifications
        "#;

    let result = mock_summarize(sample_text);

    assert!(!result.short_summary.is_empty());
    assert!(!result.relevance_to_officials.is_empty());
    assert!(!result.action_items.is_empty());
    assert!(["low", "medium", "high"].contains(&result.confidence_estimate.as_str()));

    let relevance_text = result.relevance_to_officials.join(" ");
    assert!(relevance_text.contains("Deadlines") || relevance_text.contains("28/02/2024"));
    assert!(relevance_text.contains("Financial") || relevance_text.contains("₹50,00,000"));
    assert!(relevance_text.contains("Contact") || relevance_text.contains("procurement@mod.gov.in"));

    let action_text = result.action_items.join(" ");
    assert!(
        action_text.contains("deadline")
            || action_text.contains("contact")
            || action_text.contains("eligibility")
    );
}

#[test]
fn test_mock_summarizer_with_empty_text() {
    let result = mock_summarize("");

    assert_eq!(result.short_summary, "Document processed successfully");
    assert!(result.relevance_to_officials.is_empty());
    assert!(result.action_items.is_empty());
    assert_eq!(result.confidence_estimate, "low");
}

#[test]
fn test_mock_summarizer_with_minimal_text() {
    let sample_text = "This is a simple document with no special information.";
    let result = mock_summarize(sample_text);

    assert!(!result.short_summary.is_empty());
    assert_eq!(result.confidence_estimate, "low");
}

#[test]
fn minimal_text_summary_is_the_trimmed_lead() {
    let sample_text = "This is a simple document with no special information.";
    let result = mock_summarize(sample_text);
    assert_eq!(result.short_summary, sample_text);
    assert!(result.relevance_to_officials.is_empty());
    assert!(result.action_items.is_empty());
}

#[test]
fn tender_document_finds_literals_with_high_confidence() {
    let text = "Tender notice. Submit by 28/02/2024. Value ₹50,00,000. \
                Eligibility applies. Write to procurement@mod.gov.in";
    let result = mock_summarize(text);
    assert!(result.relevance_to_officials.len() >= 3);
    assert_eq!(result.confidence_estimate, "high");
    let joined = result.relevance_to_officials.join(" ");
    assert!(joined.contains("28/02/2024"));
    assert!(joined.contains("₹50,00,000"));
    assert!(joined.contains("procurement@mod.gov.in"));
}

#[test]
fn dates_of_both_shapes_are_listed_in_order() {
    let result = mock_summarize("Submit by 28/02/2024 or Feb 28, 2024 and 2024-03-01");
    assert_eq!(
        result.relevance_to_officials,
        vec!["Deadlines found: 28/02/2024, Feb 28, 2024, 2024-03-01".to_string()]
    );
    assert_eq!(
        result.action_items,
        vec!["Review submission deadlines and plan accordingly".to_string()]
    );
    assert_eq!(result.confidence_estimate, "medium");
}

#[test]
fn amounts_with_unit_words_in_any_case() {
    let result = mock_summarize("Budget of 5 Lakh and 2,500 THOUSAND");
    assert_eq!(
        result.relevance_to_officials,
        vec!["Financial values: 5 Lakh, 2,500 THOUSAND".to_string()]
    );
    assert_eq!(
        result.action_items,
        vec!["Verify budget allocation and financial requirements".to_string()]
    );
}

#[test]
fn rupee_amount_with_fraction() {
    let result = mock_summarize("Cost ₹ 1,200.50 only");
    assert_eq!(
        result.relevance_to_officials,
        vec!["Financial values: ₹ 1,200.50".to_string()]
    );
    assert_eq!(result.short_summary, "Cost ₹ 1,200. 50 only");
}

#[test]
fn contacts_email_and_mobile() {
    let result = mock_summarize("Call 09876543210 or mail a.b@x.org");
    assert_eq!(
        result.relevance_to_officials,
        vec!["Contact information: 09876543210, a.b@x.org".to_string()]
    );
    assert_eq!(result.action_items, vec!["Save contact details for inquiries".to_string()]);
    assert_eq!(result.short_summary, "Call 09876543210 or mail a. b@x. org");
}

#[test]
fn keywords_are_found_in_any_case() {
    let result = mock_summarize("QUALIFICATION and RFQ");
    assert_eq!(
        result.relevance_to_officials,
        vec![
            "Eligibility criteria mentioned in document".to_string(),
            "Procurement/tender document identified".to_string(),
        ]
    );
    assert_eq!(
        result.action_items,
        vec![
            "Review eligibility requirements and ensure compliance".to_string(),
            "Review procurement process and requirements".to_string(),
        ]
    );
    assert_eq!(result.confidence_estimate, "medium");
}

#[test]
fn lists_stay_in_step() {
    let texts = [
        "",
        "nothing here",
        "tender",
        "Bid by 1/2/2024 for 3 crore, call 9123456789, minimum turnover.",
    ];
    for t in texts {
        let result = mock_summarize(t);
        assert_eq!(result.relevance_to_officials.len(), result.action_items.len());
    }
}

#[test]
fn confidence_follows_the_count() {
    assert_eq!(mock_summarize("plain words").confidence_estimate, "low");
    assert_eq!(mock_summarize("a tender").confidence_estimate, "medium");
    assert_eq!(mock_summarize("a tender with minimum terms").confidence_estimate, "medium");
    let all = "Bid by 1/2/2024 for 3 crore, call 9123456789, minimum turnover.";
    let result = mock_summarize(all);
    assert_eq!(result.relevance_to_officials.len(), 5);
    assert_eq!(result.confidence_estimate, "high");
}

#[test]
fn summarizing_twice_gives_the_same_result() {
    let text = "Tender. Submit by 28/02/2024. Contact x@y.in";
    let a = mock_summarize(text);
    let b = mock_summarize(text);
    assert_eq!(a.short_summary, b.short_summary);
    assert_eq!(a.relevance_to_officials, b.relevance_to_officials);
    assert_eq!(a.action_items, b.action_items);
    assert_eq!(a.confidence_estimate, b.confidence_estimate);
}

#[test]
fn reordering_sentences_keeps_the_categories() {
    let a = mock_summarize("Tender for laptops. Deadline is 28/02/2024. Contact buyer@gov.in.");
    let b = mock_summarize("Contact buyer@gov.in. Deadline is 28/02/2024. Tender for laptops.");
    assert_eq!(a.action_items, b.action_items);
    assert_eq!(a.relevance_to_officials.len(), b.relevance_to_officials.len());
    assert_eq!(a.confidence_estimate, "high");
    assert_eq!(b.confidence_estimate, "high");
    assert_ne!(a.short_summary, b.short_summary);
}

#[test]
fn summary_keeps_three_pieces() {
    assert_eq!(summary_text("A. B. C. D."), "A.  B.  C");
    assert_eq!(summary_text("  hello  "), "hello");
    assert_eq!(summary_text("   \n\t "), "Document processed successfully");
    assert_eq!(summary_text("..."), ". .");
    assert_eq!(summary_text("One. Two"), "One.  Two");
}

#[test]
fn scanned_findings_make_the_summary() {
    let result = summarize_scanned(
        "Notice.",
        &vec!["1/2/2024".to_string()],
        &Vec::new(),
        "notice.",
        &Vec::new(),
    );
    assert_eq!(result.short_summary, "Notice.");
    assert_eq!(result.relevance_to_officials, vec!["Deadlines found: 1/2/2024".to_string()]);
    assert_eq!(
        result.action_items,
        vec!["Review submission deadlines and plan accordingly".to_string()]
    );
    assert_eq!(result.confidence_estimate, "medium");

    let none = summarize_scanned("", &Vec::new(), &Vec::new(), "", &Vec::new());
    assert_eq!(none.short_summary, "Document processed successfully");
    assert_eq!(none.confidence_estimate, "low");
}

#[test]
fn mock_request_is_answered() {
    let request = MockSummaryRequest { text: "A tender.".to_string() };
    let result = summarize_text_mock(request).unwrap();
    assert_eq!(result.short_summary, "A tender.");
    assert_eq!(result.confidence_estimate, "medium");
}

#[test]
fn prompt_and_key_check() {
    let prompt = api_prompt("doc");
    assert!(prompt.starts_with("You are a summarizer"));
    assert_eq!(prompt, format!("{}doc", API_PROMPT_HEAD));
    assert_eq!(check_api_key(""), Err(MISSING_KEY_MESSAGE.to_string()));
    assert_eq!(check_api_key("k"), Ok(()));
}

#[test]
fn white_space_characters_are_trimmed() {
    let white = [
        '\u{9}', '\u{a}', '\u{b}', '\u{c}', '\u{d}', ' ', '\u{85}', '\u{a0}', '\u{1680}',
        '\u{2000}', '\u{2005}', '\u{200a}', '\u{2028}', '\u{2029}', '\u{202f}', '\u{205f}',
        '\u{3000}',
    ];
    for c in white {
        assert_eq!(summary_text(&format!("{c}x{c}")), "x");
    }
    for c in ['\u{200b}', '\u{180e}', 'y'] {
        let padded = format!("{c}x{c}");
        assert_eq!(summary_text(&padded), padded);
    }
}
