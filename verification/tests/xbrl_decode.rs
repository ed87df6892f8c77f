use edgar_decode::xbrl::parse_xbrl;
use edgar_decode::value::DynamicValue;
use edgar_decode::DecodeError;

#[test]
fn end_to_end_single_fact() {
    let text = "<xbrl>\
        <context id=\"c1\">\
            <entity><identifier>0000320193</identifier></entity>\
            <period><instant>2023-09-30</instant></period>\
        </context>\
        <unit id=\"u1\"><measure>iso4217:USD</measure></unit>\
        <Assets contextRef=\"c1\" unitRef=\"u1\" decimals=\"-6\">352755000000</Assets>\
    </xbrl>";
    let doc = parse_xbrl(text).unwrap();
    assert_eq!(doc.facts.len(), 1);
    let fact = &doc.facts[0];
    assert_eq!(fact.concept, "Assets");
    assert!(matches!(fact.value, DynamicValue::Integer(352755000000)));
    assert_eq!(fact.decimals.as_deref(), Some("-6"));
    assert_eq!(fact.unit.as_deref(), Some("iso4217:USD"));
    let ctx = doc.context_of(fact).unwrap();
    assert_eq!(ctx.entity, "0000320193");
    assert_eq!(ctx.period.instant.as_deref(), Some("2023-09-30"));
    assert_eq!(ctx.period.start_date, None);
    assert_eq!(ctx.period.end_date, None);
    assert_eq!(ctx.segments.len(), 0);
}

#[test]
fn divide_unit_joins_measures() {
    let text = "<xbrl>\
        <context id=\"c1\">\
            <entity><identifier>X</identifier></entity>\
            <period><instant>2023-01-01</instant></period>\
        </context>\
        <unit id=\"u1\"><divide>\
            <unitNumerator><measure>USD</measure></unitNumerator>\
            <unitDenominator><measure>shares</measure></unitDenominator>\
        </divide></unit>\
        <EarningsPerShare contextRef=\"c1\" unitRef=\"u1\">6.13</EarningsPerShare>\
    </xbrl>";
    let doc = parse_xbrl(text).unwrap();
    assert_eq!(doc.facts.len(), 1);
    assert_eq!(doc.facts[0].unit.as_deref(), Some("USD/shares"));
}

#[test]
fn explicit_member_segments() {
    let text = "<xbrl xmlns:xbrldi=\"http://xbrl.org/2006/xbrldi\">\
        <context id=\"c1\">\
            <entity><identifier>X</identifier>\
                <segment>\
                    <xbrldi:explicitMember dimension=\"us-gaap:StatementClassOfStockAxis\">\
us-gaap:CommonStockMember</xbrldi:explicitMember>\
                </segment>\
            </entity>\
            <period><instant>2023-01-01</instant></period>\
        </context>\
        <Shares contextRef=\"c1\">100</Shares>\
    </xbrl>";
    let doc = parse_xbrl(text).unwrap();
    let ctx = doc.context_of(&doc.facts[0]).unwrap();
    assert_eq!(ctx.segments.len(), 1);
    assert_eq!(ctx.segments[0].dimension, "StatementClassOfStockAxis");
    assert_eq!(ctx.segments[0].member, "CommonStockMember");
}

#[test]
fn member_without_colon_stores_empty() {
    let text = "<xbrl xmlns:xbrldi=\"http://xbrl.org/2006/xbrldi\">\
        <context id=\"c1\">\
            <entity><identifier>X</identifier>\
                <segment>\
                    <xbrldi:explicitMember dimension=\"NoColonAxis\">NoColonMember</xbrldi:explicitMember>\
                </segment>\
            </entity>\
            <period><instant>2023-01-01</instant></period>\
        </context>\
        <Shares contextRef=\"c1\">100</Shares>\
    </xbrl>";
    let doc = parse_xbrl(text).unwrap();
    let ctx = doc.context_of(&doc.facts[0]).unwrap();
    assert_eq!(ctx.segments[0].dimension, "");
    assert_eq!(ctx.segments[0].member, "");
}

#[test]
fn fact_count_matches_resolvable_elements() {
    let text = "<xbrl>\
        <context id=\"c1\">\
            <entity><identifier>X</identifier></entity>\
            <period><startDate>2023-01-01</startDate><endDate>2023-12-31</endDate></period>\
        </context>\
        <A contextRef=\"c1\">1</A>\
        <B>2</B>\
        <C contextRef=\"missing\">3</C>\
        <D contextRef=\"c1\">4</D>\
    </xbrl>";
    let doc = parse_xbrl(text).unwrap();
    // B has no contextRef and C cites an unknown id: both are omitted
    // silently, never an error.
    assert_eq!(doc.facts.len(), 2);
    assert_eq!(doc.facts[0].concept, "A");
    assert_eq!(doc.facts[1].concept, "D");
    let ctx = doc.context_of(&doc.facts[0]).unwrap();
    assert_eq!(ctx.period.start_date.as_deref(), Some("2023-01-01"));
    assert_eq!(ctx.period.end_date.as_deref(), Some("2023-12-31"));
}

#[test]
fn shared_context_is_identical_instance() {
    let text = "<xbrl>\
        <context id=\"c1\">\
            <entity><identifier>X</identifier></entity>\
            <period><instant>2023-01-01</instant></period>\
        </context>\
        <A contextRef=\"c1\">1</A>\
        <B contextRef=\"c1\">2</B>\
    </xbrl>";
    let doc = parse_xbrl(text).unwrap();
    assert_eq!(doc.facts.len(), 2);
    // Both facts hold the same arena key, so dereferencing them reaches
    // the very same Context instance, not merely an equal one.
    assert_eq!(doc.facts[0].context, doc.facts[1].context);
    let shared = doc.context_of(&doc.facts[0]).unwrap();
    assert_eq!(shared.entity, "X");
}

#[test]
fn duplicate_context_id_last_wins() {
    let text = "<xbrl>\
        <context id=\"c1\">\
            <entity><identifier>first</identifier></entity>\
            <period><instant>2023-01-01</instant></period>\
        </context>\
        <context id=\"c1\">\
            <entity><identifier>second</identifier></entity>\
            <period><instant>2023-06-30</instant></period>\
        </context>\
        <A contextRef=\"c1\">1</A>\
    </xbrl>";
    let doc = parse_xbrl(text).unwrap();
    let ctx = doc.context_of(&doc.facts[0]).unwrap();
    assert_eq!(ctx.entity, "second");
}

#[test]
fn duplicate_unit_id_last_wins() {
    let text = "<xbrl>\
        <context id=\"c1\">\
            <entity><identifier>X</identifier></entity>\
            <period><instant>2023-01-01</instant></period>\
        </context>\
        <unit id=\"u1\"><measure>USD</measure></unit>\
        <unit id=\"u1\"><measure>EUR</measure></unit>\
        <A contextRef=\"c1\" unitRef=\"u1\">1</A>\
    </xbrl>";
    let doc = parse_xbrl(text).unwrap();
    assert_eq!(doc.facts[0].unit.as_deref(), Some("EUR"));
}

#[test]
fn unit_without_measure_is_empty_not_fatal() {
    let text = "<xbrl>\
        <context id=\"c1\">\
            <entity><identifier>X</identifier></entity>\
            <period><instant>2023-01-01</instant></period>\
        </context>\
        <unit id=\"u1\"></unit>\
        <unit id=\"u2\"><divide><unitNumerator><measure>USD</measure></unitNumerator></divide></unit>\
        <A contextRef=\"c1\" unitRef=\"u1\">1</A>\
        <B contextRef=\"c1\" unitRef=\"u2\">2</B>\
    </xbrl>";
    let doc = parse_xbrl(text).unwrap();
    assert_eq!(doc.facts[0].unit.as_deref(), Some(""));
    // A divide unit missing its denominator keeps the slash shape.
    assert_eq!(doc.facts[1].unit.as_deref(), Some("USD/"));
}

#[test]
fn context_without_entity_or_period_is_skipped() {
    let text = "<xbrl>\
        <context id=\"noent\">\
            <period><instant>2023-01-01</instant></period>\
        </context>\
        <context id=\"noper\">\
            <entity><identifier>X</identifier></entity>\
        </context>\
        <A contextRef=\"noent\">1</A>\
        <B contextRef=\"noper\">2</B>\
    </xbrl>";
    let doc = parse_xbrl(text).unwrap();
    assert_eq!(doc.contexts.len(), 0);
    assert_eq!(doc.facts.len(), 0);
}

#[test]
fn context_without_id_files_under_empty_key() {
    // One uniform tolerance policy: like units, a context missing its id
    // attribute is filed under the empty key.
    let text = "<xbrl>\
        <context>\
            <entity><identifier>X</identifier></entity>\
            <period><instant>2023-01-01</instant></period>\
        </context>\
        <A contextRef=\"\">1</A>\
    </xbrl>";
    let doc = parse_xbrl(text).unwrap();
    assert_eq!(doc.contexts.len(), 1);
    assert_eq!(doc.context_ids[0], "");
    assert_eq!(doc.facts.len(), 1);
}

#[test]
fn unresolvable_unit_ref_gives_no_unit() {
    let text = "<xbrl>\
        <context id=\"c1\">\
            <entity><identifier>X</identifier></entity>\
            <period><instant>2023-01-01</instant></period>\
        </context>\
        <A contextRef=\"c1\" unitRef=\"nosuch\">1</A>\
    </xbrl>";
    let doc = parse_xbrl(text).unwrap();
    assert_eq!(doc.facts.len(), 1);
    assert_eq!(doc.facts[0].unit, None);
}

#[test]
fn fact_value_kinds() {
    let text = "<xbrl>\
        <context id=\"c1\">\
            <entity><identifier>X</identifier></entity>\
            <period><instant>2023-01-01</instant></period>\
        </context>\
        <T contextRef=\"c1\">true</T>\
        <I contextRef=\"c1\">42</I>\
        <F contextRef=\"c1\">42.5</F>\
        <S contextRef=\"c1\">abc</S>\
        <E contextRef=\"c1\"></E>\
    </xbrl>";
    let doc = parse_xbrl(text).unwrap();
    assert_eq!(doc.facts.len(), 5);
    assert!(matches!(doc.facts[0].value, DynamicValue::Boolean(true)));
    assert!(matches!(doc.facts[1].value, DynamicValue::Integer(42)));
    match &doc.facts[2].value {
        DynamicValue::Float(t) => assert_eq!(t.parse::<f64>().unwrap(), 42.5),
        _ => panic!("expected a float token"),
    }
    match &doc.facts[3].value {
        DynamicValue::Text(t) => assert_eq!(t, "abc"),
        _ => panic!("expected the string fallback"),
    }
    // An element without text infers from the empty string.
    match &doc.facts[4].value {
        DynamicValue::Text(t) => assert_eq!(t, ""),
        _ => panic!("expected the string fallback"),
    }
}

#[test]
fn malformed_xml_is_the_single_fatal_error() {
    assert!(matches!(parse_xbrl("<a>"), Err(DecodeError::MalformedXml(_))));
    assert!(matches!(parse_xbrl(""), Err(DecodeError::MalformedXml(_))));
    assert!(matches!(
        parse_xbrl("not xml at all"),
        Err(DecodeError::MalformedXml(_))
    ));
    // The error carries the parser's own description of the defect.
    match parse_xbrl("<a>") {
        Err(e) => assert!(!e.reason().is_empty()),
        Ok(_) => panic!("expected an error"),
    }
}

#[test]
fn missing_dimension_namespace_matches_unprefixed_members() {
    // Without an xbrldi declaration the member match falls back to the
    // empty namespace, so unprefixed explicitMember elements still match.
    let text = "<xbrl>\
        <context id=\"c1\">\
            <entity><identifier>X</identifier>\
                <segment><explicitMember dimension=\"a:Axis\">b:Member</explicitMember></segment>\
            </entity>\
            <period><instant>2023-01-01</instant></period>\
        </context>\
        <A contextRef=\"c1\">1</A>\
    </xbrl>";
    let doc = parse_xbrl(text).unwrap();
    let ctx = doc.context_of(&doc.facts[0]).unwrap();
    assert_eq!(ctx.segments.len(), 1);
    assert_eq!(ctx.segments[0].dimension, "Axis");
    assert_eq!(ctx.segments[0].member, "Member");
}

#[test]
fn member_in_wrong_namespace_is_ignored() {
    // The explicitMember match requires the namespace URI bound to the
    // xbrldi prefix; the same local name in another namespace is ignored,
    // while any prefix bound to the right URI matches.
    let text = "<xbrl xmlns:xbrldi=\"http://xbrl.org/2006/xbrldi\" \
xmlns:alias=\"http://xbrl.org/2006/xbrldi\" xmlns:other=\"http://example.com/other\">\
        <context id=\"c1\">\
            <entity><identifier>X</identifier>\
                <segment>\
                    <other:explicitMember dimension=\"a:Wrong\">a:WrongMember</other:explicitMember>\
                    <alias:explicitMember dimension=\"a:Axis\">a:Member</alias:explicitMember>\
                </segment>\
            </entity>\
            <period><instant>2023-01-01</instant></period>\
        </context>\
        <A contextRef=\"c1\">1</A>\
    </xbrl>";
    let doc = parse_xbrl(text).unwrap();
    let ctx = doc.context_of(&doc.facts[0]).unwrap();
    assert_eq!(ctx.segments.len(), 1);
    assert_eq!(ctx.segments[0].dimension, "Axis");
    assert_eq!(ctx.segments[0].member, "Member");
}

#[test]
fn pretty_printed_document_decodes_the_same() {
    // Indentation text runs and comments between elements must not
    // disturb any lookup.
    let text = "<xbrl>\n\
  <!-- context section -->\n\
  <context id=\"c1\">\n\
    <entity>\n\
      <identifier>X</identifier>\n\
    </entity>\n\
    <period>\n\
      <instant>2023-01-01</instant>\n\
    </period>\n\
  </context>\n\
  <unit id=\"u1\">\n\
    <measure>USD</measure>\n\
  </unit>\n\
  <A contextRef=\"c1\" unitRef=\"u1\">7</A>\n\
</xbrl>\n";
    let doc = parse_xbrl(text).unwrap();
    assert_eq!(doc.facts.len(), 1);
    assert!(matches!(doc.facts[0].value, DynamicValue::Integer(7)));
    assert_eq!(doc.facts[0].unit.as_deref(), Some("USD"));
    let ctx = doc.context_of(&doc.facts[0]).unwrap();
    assert_eq!(ctx.entity, "X");
    assert_eq!(ctx.period.instant.as_deref(), Some("2023-01-01"));
}

#[test]
fn qualified_tag_names_match_by_local_name() {
    // Dictionary and fact lookups match the unqualified local name, so a
    // namespace-qualified document decodes the same way.
    let text = "<xbrli:xbrl xmlns:xbrli=\"http://www.xbrl.org/2003/instance\" \
xmlns:us-gaap=\"http://fasb.org/us-gaap/2023\">\
        <xbrli:context id=\"c1\">\
            <xbrli:entity><xbrli:identifier>X</xbrli:identifier></xbrli:entity>\
            <xbrli:period><xbrli:instant>2023-01-01</xbrli:instant></xbrli:period>\
        </xbrli:context>\
        <xbrli:unit id=\"u1\"><xbrli:measure>iso4217:USD</xbrli:measure></xbrli:unit>\
        <us-gaap:Assets contextRef=\"c1\" unitRef=\"u1\">5</us-gaap:Assets>\
    </xbrli:xbrl>";
    let doc = parse_xbrl(text).unwrap();
    assert_eq!(doc.facts.len(), 1);
    assert_eq!(doc.facts[0].concept, "Assets");
    assert_eq!(doc.facts[0].unit.as_deref(), Some("iso4217:USD"));
}
