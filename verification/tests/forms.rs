use edgar_decode::form13f::{parse_form13f, parse_form13f_table};
use edgar_decode::ownership::parse_ownership_form;
use edgar_decode::value::DynamicValue;
use edgar_decode::DecodeError;

fn expect_err<T>(r: Result<T, DecodeError>) -> DecodeError {
    match r {
        Err(e) => e,
        Ok(_) => panic!("expected an error"),
    }
}

fn holdings_form() -> String {
    let mut s = String::new();
    s.push_str("<edgarSubmission>");
    s.push_str("<schemaVersion>X0202</schemaVersion>");
    s.push_str("<headerData>");
    s.push_str("<submissionType>13F-HR</submissionType>");
    s.push_str("<filerInfo>");
    s.push_str("<liveTestFlag>LIVE</liveTestFlag>");
    s.push_str("<flags><confirmingCopyFlag>N</confirmingCopyFlag><returnCopyFlag>Y</returnCopyFlag></flags>");
    s.push_str("<filer><credentials><cik>0000102909</cik><ccc>SECRET-REDACTED</ccc></credentials></filer>");
    s.push_str("<contact><contactName>Jane Doe</contactName><contactEmailAddress>jane@example.com</contactEmailAddress></contact>");
    s.push_str("<periodOfReport>09-30-2023</periodOfReport>");
    s.push_str("<denovoRequest>false</denovoRequest>");
    s.push_str("</filerInfo>");
    s.push_str("</headerData>");
    s.push_str("<formData>");
    s.push_str("<coverPage>");
    s.push_str("<reportCalendarOrQuarter>09-30-2023</reportCalendarOrQuarter>");
    s.push_str("<isAmendment>false</isAmendment>");
    s.push_str("<filingManager><name>Vanguard Group Inc</name>");
    s.push_str("<address><street1>100 Vanguard Blvd</street1><city>Malvern</city>");
    s.push_str("<stateOrCountry>PA</stateOrCountry><zipCode>19355</zipCode></address>");
    s.push_str("</filingManager>");
    s.push_str("<reportType>13F HOLDINGS REPORT</reportType>");
    s.push_str("<form13FFileNumber>028-02477</form13FFileNumber>");
    s.push_str("<crdNumber>+7</crdNumber>");
    s.push_str("<provideInfoForInstruction5>N</provideInfoForInstruction5>");
    s.push_str("</coverPage>");
    s.push_str("<signatureBlock>");
    s.push_str("<name>John Smith</name><title>Counsel</title><phone>610-669-1000</phone>");
    s.push_str("<signature>/s/ John Smith</signature><city>Malvern</city>");
    s.push_str("<stateOrCountry>PA</stateOrCountry><signatureDate>11-13-2023</signatureDate>");
    s.push_str("</signatureBlock>");
    s.push_str("<summaryPage>");
    s.push_str("<otherIncludedManagersCount>2</otherIncludedManagersCount>");
    s.push_str("<tableEntryTotal>150</tableEntryTotal>");
    s.push_str("<tableValueTotal>4500000000</tableValueTotal>");
    s.push_str("<otherManagers2Info>");
    s.push_str("<otherManager2><sequenceNumber>1</sequenceNumber>");
    s.push_str("<otherManager><cik>0000111111</cik><name>Sub Adviser A</name></otherManager>");
    s.push_str("</otherManager2>");
    s.push_str("<otherManager2><sequenceNumber>2</sequenceNumber>");
    s.push_str("<otherManager><cik>0000222222</cik></otherManager>");
    s.push_str("</otherManager2>");
    s.push_str("</otherManagers2Info>");
    s.push_str("</summaryPage>");
    s.push_str("<documents><document><conformedName>report.txt</conformedName>");
    s.push_str("<description>cover letter</description></document></documents>");
    s.push_str("</formData>");
    s.push_str("</edgarSubmission>");
    s
}

#[test]
fn holdings_report_end_to_end() {
    let text = holdings_form();
    let form = parse_form13f(&text).unwrap();
    assert_eq!(form.schema_version.as_deref(), Some("X0202"));
    assert_eq!(form.header_data.submission_type, "13F-HR");
    let fi = &form.header_data.filer_info;
    assert_eq!(fi.live_test_flag, "LIVE");
    let flags = fi.flags.as_ref().unwrap();
    assert_eq!(flags.confirming_copy_flag, Some(false));
    assert_eq!(flags.return_copy_flag, Some(true));
    assert_eq!(flags.override_internet_flag, None);
    assert_eq!(fi.filer.credentials.cik, "0000102909");
    assert_eq!(fi.filer.credentials.ccc, "SECRET-REDACTED");
    assert_eq!(fi.filer.file_number, None);
    let contact = fi.contact.as_ref().unwrap();
    assert_eq!(contact.name.as_deref(), Some("Jane Doe"));
    assert_eq!(contact.phone_number, None);
    assert_eq!(contact.email_address.as_deref(), Some("jane@example.com"));
    assert_eq!(fi.period_of_report, "09-30-2023");
    assert_eq!(fi.denovo_request, Some(false));
    let cp = &form.form_data.cover_page;
    assert_eq!(cp.report_calendar_or_quarter, "09-30-2023");
    assert_eq!(cp.is_amendment, Some(false));
    assert_eq!(cp.filing_manager.name, "Vanguard Group Inc");
    assert_eq!(cp.filing_manager.address.street1, "100 Vanguard Blvd");
    assert_eq!(cp.filing_manager.address.street2, None);
    assert_eq!(cp.filing_manager.address.zip_code, "19355");
    assert_eq!(cp.report_type, "13F HOLDINGS REPORT");
    assert_eq!(cp.form_13f_file_number.as_deref(), Some("028-02477"));
    // The schema-form integer grammar accepts one leading plus.
    assert_eq!(cp.crd_number, Some(7));
    assert_eq!(cp.provide_info_for_instruction_5, false);
    let sb = &form.form_data.signature_block;
    assert_eq!(sb.name, "John Smith");
    assert_eq!(sb.signature_date, "11-13-2023");
    let sp = form.form_data.summary_page.as_ref().unwrap();
    assert_eq!(sp.other_included_managers_count, 2);
    assert_eq!(sp.table_entry_total, 150);
    assert_eq!(sp.table_value_total, 4500000000);
    assert_eq!(sp.is_confidential_omitted, None);
    assert_eq!(sp.other_managers.len(), 2);
    assert_eq!(sp.other_managers[0].sequence_number, Some(1));
    let m0 = sp.other_managers[0].manager.as_ref().unwrap();
    assert_eq!(m0.cik.as_deref(), Some("0000111111"));
    assert_eq!(m0.name.as_deref(), Some("Sub Adviser A"));
    let docs = form.form_data.documents.as_ref().unwrap();
    assert_eq!(docs.len(), 1);
    assert_eq!(docs[0].conformed_name.as_deref(), Some("report.txt"));
    assert_eq!(docs[0].contents, None);
}

#[test]
fn holdings_report_missing_required_field() {
    let text = "<edgarSubmission><formData></formData></edgarSubmission>";
    let err = expect_err(parse_form13f(text));
    assert!(matches!(&err, DecodeError::MissingElement(t) if t == "headerData"));
    assert_eq!(err.reason(), "headerData not found");

    let text2 = "<edgarSubmission><headerData>\
        <submissionType>13F-HR</submissionType>\
        <filerInfo><liveTestFlag>LIVE</liveTestFlag></filerInfo>\
        </headerData></edgarSubmission>";
    let err2 = expect_err(parse_form13f(text2));
    assert!(matches!(&err2, DecodeError::MissingElement(t) if t == "filer"));
}

#[test]
fn holdings_report_malformed_xml() {
    assert!(matches!(
        parse_form13f("<edgarSubmission>"),
        Err(DecodeError::MalformedXml(_))
    ));
}

#[test]
fn holdings_table_malformed_xml_names_the_operation() {
    let err = expect_err(parse_form13f_table("<informationTable>"));
    assert!(matches!(&err, DecodeError::MalformedXml(_)));
    assert!(err.reason().starts_with("Failed to parse Form 13F table: "));
}

#[test]
fn holdings_table_entries() {
    let text = "<informationTable>\
        <infoTable>\
            <nameOfIssuer>APPLE INC</nameOfIssuer>\
            <titleOfClass>COM</titleOfClass>\
            <cusip>037833100</cusip>\
            <figi>BBG000B9XRY4</figi>\
            <value>352755</value>\
            <shrsOrPrnAmt><sshPrnamt>1000</sshPrnamt><sshPrnamtType>SH</sshPrnamtType></shrsOrPrnAmt>\
            <investmentDiscretion>SOLE</investmentDiscretion>\
            <otherManager>1, +2,x,4</otherManager>\
            <votingAuthority><Sole>1000</Sole><Shared>0</Shared><None>0</None></votingAuthority>\
        </infoTable>\
        <infoTable>\
            <titleOfClass>COM</titleOfClass>\
            <cusip>BAD</cusip>\
            <value>1</value>\
            <shrsOrPrnAmt><sshPrnamt>1</sshPrnamt><sshPrnamtType>SH</sshPrnamtType></shrsOrPrnAmt>\
            <investmentDiscretion>SOLE</investmentDiscretion>\
            <votingAuthority><Sole>1</Sole><Shared>0</Shared><None>0</None></votingAuthority>\
        </infoTable>\
    </informationTable>";
    let table = parse_form13f_table(text).unwrap();
    // The second entry has no nameOfIssuer: skipped, never fatal.
    assert_eq!(table.entries.len(), 1);
    let e = &table.entries[0];
    assert_eq!(e.name_of_issuer, "APPLE INC");
    assert_eq!(e.title_of_class, "COM");
    assert_eq!(e.cusip, "037833100");
    assert_eq!(e.figi.as_deref(), Some("BBG000B9XRY4"));
    assert_eq!(e.value, 352755);
    assert_eq!(e.shares_or_print_amount.amount, 1000);
    assert_eq!(e.shares_or_print_amount.shares_or_print_type, "SH");
    assert_eq!(e.put_call, None);
    assert_eq!(e.investment_discretion, "SOLE");
    // Unparsable pieces of the comma-separated list are dropped; a signed
    // piece parses.
    assert_eq!(e.other_manager.as_ref().unwrap(), &vec![1, 2, 4]);
    assert_eq!(e.voting_authority.sole, 1000);
    assert_eq!(e.voting_authority.shared, 0);
    assert_eq!(e.voting_authority.none, 0);
}

fn ownership_form() -> String {
    let mut s = String::new();
    s.push_str("<ownershipDocument>");
    s.push_str("<schemaVersion>X0306</schemaVersion>");
    s.push_str("<documentType>4</documentType>");
    s.push_str("<periodOfReport>2023-05-01</periodOfReport>");
    s.push_str("<notSubjectToSection16>0</notSubjectToSection16>");
    s.push_str("<issuer><issuerCik>0000320193</issuerCik><issuerName>Apple Inc.</issuerName>");
    s.push_str("<issuerTradingSymbol>AAPL</issuerTradingSymbol></issuer>");
    s.push_str("<reportingOwner>");
    s.push_str("<reportingOwnerId><rptOwnerCik>0001214156</rptOwnerCik>");
    s.push_str("<rptOwnerName>COOK TIMOTHY D</rptOwnerName></reportingOwnerId>");
    s.push_str("<reportingOwnerAddress><rptOwnerStreet1>ONE APPLE PARK WAY</rptOwnerStreet1>");
    s.push_str("<rptOwnerCity>CUPERTINO</rptOwnerCity><rptOwnerState>CA</rptOwnerState></reportingOwnerAddress>");
    s.push_str("<reportingOwnerRelationship><isDirector>0</isDirector><isOfficer>1</isOfficer>");
    s.push_str("<officerTitle>Chief Executive Officer</officerTitle></reportingOwnerRelationship>");
    s.push_str("</reportingOwner>");
    s.push_str("<aff10b5One>y</aff10b5One>");
    s.push_str("<nonDerivativeTable>");
    s.push_str("<nonDerivativeTransaction>");
    s.push_str("<securityTitle><value>Common Stock</value></securityTitle>");
    s.push_str("<transactionDate><value>2023-05-01</value><footnoteId id=\"F1\"/></transactionDate>");
    s.push_str("<transactionCoding><transactionFormType>4</transactionFormType>");
    s.push_str("<transactionCode>S</transactionCode><equitySwapInvolved>0</equitySwapInvolved>");
    s.push_str("<footnoteId id=\"F2\"/></transactionCoding>");
    s.push_str("<transactionAmounts><transactionShares><value>15000</value></transactionShares>");
    s.push_str("<transactionPricePerShare><value>169.59</value></transactionPricePerShare>");
    s.push_str("<transactionAcquiredDisposedCode><value>D</value></transactionAcquiredDisposedCode>");
    s.push_str("</transactionAmounts>");
    s.push_str("<postTransactionAmounts><sharesOwnedFollowingTransaction><value>3280053</value>");
    s.push_str("</sharesOwnedFollowingTransaction></postTransactionAmounts>");
    s.push_str("<ownershipNature><directOrIndirectOwnership><value>D</value></directOrIndirectOwnership>");
    s.push_str("</ownershipNature>");
    s.push_str("</nonDerivativeTransaction>");
    s.push_str("<nonDerivativeHolding>");
    s.push_str("<securityTitle><value>RSU</value></securityTitle>");
    s.push_str("<transactionCoding><transactionFormType>4</transactionFormType></transactionCoding>");
    s.push_str("</nonDerivativeHolding>");
    s.push_str("</nonDerivativeTable>");
    s.push_str("<footnotes><footnote id=\"F1\">Sale under a trading plan.</footnote>");
    s.push_str("<footnote id=\"F2\">Weighted average price.</footnote></footnotes>");
    s.push_str("<remarks>None.</remarks>");
    s.push_str("<ownerSignature><signatureName>/s/ Sam Counsel</signatureName>");
    s.push_str("<signatureDate>2023-05-03</signatureDate></ownerSignature>");
    s.push_str("</ownershipDocument>");
    s
}

#[test]
fn ownership_report_end_to_end() {
    let text = ownership_form();
    let form = parse_ownership_form(&text).unwrap();
    assert_eq!(form.schema_version.as_deref(), Some("X0306"));
    assert_eq!(form.document_type, "4");
    assert_eq!(form.period_of_report, "2023-05-01");
    assert_eq!(form.date_of_original_submission, None);
    assert_eq!(form.not_subject_to_section_16, Some(false));
    assert_eq!(form.no_securities_owned, None);
    assert_eq!(form.issuer.cik, "0000320193");
    assert_eq!(form.issuer.name.as_deref(), Some("Apple Inc."));
    assert_eq!(form.issuer.trading_symbol, "AAPL");
    assert_eq!(form.reporting_owners.len(), 1);
    let owner = &form.reporting_owners[0];
    assert_eq!(owner.id.cik, "0001214156");
    assert_eq!(owner.id.ccc, None);
    assert_eq!(owner.id.name.as_deref(), Some("COOK TIMOTHY D"));
    let addr = owner.address.as_ref().unwrap();
    assert_eq!(addr.street1.as_deref(), Some("ONE APPLE PARK WAY"));
    assert_eq!(addr.city.as_deref(), Some("CUPERTINO"));
    assert_eq!(addr.zip_code, None);
    let rel = owner.relationship.as_ref().unwrap();
    assert_eq!(rel.is_director, Some(false));
    assert_eq!(rel.is_officer, Some(true));
    assert_eq!(rel.officer_title.as_deref(), Some("Chief Executive Officer"));
    // The lowercase token goes through real case folding.
    assert_eq!(form.aff10b5_one, Some(true));
    let table = form.non_derivative_table.as_ref().unwrap();
    assert_eq!(table.transactions.len(), 1);
    assert_eq!(table.holdings.len(), 1);
    let tx = &table.transactions[0];
    let title = tx.security_title.as_ref().unwrap();
    match title.value.as_ref().unwrap() {
        DynamicValue::Text(t) => assert_eq!(t, "Common Stock"),
        _ => panic!("expected text"),
    }
    assert_eq!(title.footnote_ids.as_ref().unwrap().len(), 0);
    let date = tx.transaction_date.as_ref().unwrap();
    assert_eq!(date.footnote_ids.as_ref().unwrap(), &vec!["F1".to_string()]);
    let coding = tx.transaction_coding.as_ref().unwrap();
    assert_eq!(coding.form_type.as_deref(), Some("4"));
    assert_eq!(coding.transaction_code.as_deref(), Some("S"));
    assert_eq!(coding.equity_swap_involved, Some(false));
    assert_eq!(coding.footnote_ids.as_ref().unwrap(), &vec!["F2".to_string()]);
    let amounts = tx.transaction_amounts.as_ref().unwrap();
    match amounts.shares.as_ref().unwrap().value.as_ref().unwrap() {
        DynamicValue::Integer(v) => assert_eq!(*v, 15000),
        _ => panic!("expected an integer"),
    }
    match amounts.price_per_share.as_ref().unwrap().value.as_ref().unwrap() {
        DynamicValue::Float(t) => assert_eq!(t.parse::<f64>().unwrap(), 169.59),
        _ => panic!("expected a float token"),
    }
    let post = tx.post_transaction_amounts.as_ref().unwrap();
    match post
        .shares_owned_following_transaction
        .as_ref()
        .unwrap()
        .value
        .as_ref()
        .unwrap()
    {
        DynamicValue::Integer(v) => assert_eq!(*v, 3280053),
        _ => panic!("expected an integer"),
    }
    assert!(form.derivative_table.is_none());
    assert_eq!(form.footnotes.len(), 2);
    assert_eq!(form.footnotes[0].id.as_deref(), Some("F1"));
    assert_eq!(
        form.footnotes[0].note.as_deref(),
        Some("Sale under a trading plan.")
    );
    assert_eq!(form.remarks.as_deref(), Some("None."));
    assert_eq!(form.owner_signatures.len(), 1);
    assert_eq!(form.owner_signatures[0].name, "/s/ Sam Counsel");
    assert_eq!(form.owner_signatures[0].date, "2023-05-03");
}

#[test]
fn ownership_report_requires_owner() {
    let text = "<ownershipDocument>\
        <documentType>4</documentType>\
        <periodOfReport>2023-05-01</periodOfReport>\
        <issuer><issuerCik>1</issuerCik><issuerTradingSymbol>T</issuerTradingSymbol></issuer>\
    </ownershipDocument>";
    let err = expect_err(parse_ownership_form(text));
    assert!(matches!(&err, DecodeError::MissingElement(t) if t == "reportingOwner"));
}

#[test]
fn ownership_report_owner_without_cik_is_rejected() {
    // A defective owner is rejected under the tag actually missing.
    let text = "<ownershipDocument>\
        <documentType>4</documentType>\
        <periodOfReport>2023-05-01</periodOfReport>\
        <issuer><issuerCik>1</issuerCik><issuerTradingSymbol>T</issuerTradingSymbol></issuer>\
        <reportingOwner><reportingOwnerId></reportingOwnerId></reportingOwner>\
    </ownershipDocument>";
    let err = expect_err(parse_ownership_form(text));
    assert!(matches!(&err, DecodeError::MissingElement(t) if t == "rptOwnerCik"));
    assert_eq!(err.reason(), "rptOwnerCik not found");
}

#[test]
fn ownership_report_owner_without_id_block_is_rejected() {
    let text = "<ownershipDocument>\
        <documentType>4</documentType>\
        <periodOfReport>2023-05-01</periodOfReport>\
        <issuer><issuerCik>1</issuerCik><issuerTradingSymbol>T</issuerTradingSymbol></issuer>\
        <reportingOwner></reportingOwner>\
    </ownershipDocument>";
    let err = expect_err(parse_ownership_form(text));
    assert!(matches!(&err, DecodeError::MissingElement(t) if t == "reportingOwnerId"));
}

#[test]
fn ownership_report_signature_errors() {
    let text = "<ownershipDocument>\
        <documentType>4</documentType>\
        <periodOfReport>2023-05-01</periodOfReport>\
        <issuer><issuerCik>1</issuerCik><issuerTradingSymbol>T</issuerTradingSymbol></issuer>\
        <reportingOwner><reportingOwnerId><rptOwnerCik>2</rptOwnerCik></reportingOwnerId></reportingOwner>\
        <ownerSignature><signatureName>A</signatureName></ownerSignature>\
    </ownershipDocument>";
    let err = expect_err(parse_ownership_form(text));
    assert!(matches!(&err, DecodeError::MissingElement(t) if t == "signatureDate"));
}

#[test]
fn ownership_report_missing_document_type() {
    let text = "<ownershipDocument>\
        <periodOfReport>2023-05-01</periodOfReport>\
    </ownershipDocument>";
    let err = expect_err(parse_ownership_form(text));
    assert!(matches!(&err, DecodeError::MissingElement(t) if t == "documentType"));
}

#[test]
fn ownership_report_malformed_xml() {
    assert!(matches!(
        parse_ownership_form("<ownershipDocument"),
        Err(DecodeError::MalformedXml(_))
    ));
}
