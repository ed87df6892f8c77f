//! The insider-ownership report decoder: fixed-shape extraction of the
//! issuer, the reporting owners, the derivative and non-derivative
//! transaction tables, footnotes and signatures. Leaf values inside the
//! tables go through the same inference cascade as XBRL facts; missing
//! required fields are fatal and reported with the missing tag's name.

use vstd::prelude::*;
use vstd::string::StringExecFns;
use crate::{DecodeError, ErrorModel, res_view, opt_model};
use crate::value::{
    DynamicValue, ValueModel, spec_infer, infer_value, spec_child_bool, child_bool, child_string,
};
use crate::xml::{
    XmlElement, spec_first_child, first_child, spec_children_with_tag, children_with_tag,
    spec_child_text, child_text, spec_text, text_of, spec_attr, attr_of, parsed_xml,
    parse_xml_document,
};

verus! {

/// A leaf value with its footnote references: the optional inferred value
/// of the `value` child, and the ids of the `footnoteId` children.
pub struct ValueFootnotes {
    pub value: Option<DynamicValue>,
    pub footnote_ids: Option<Vec<String>>,
}

pub struct ValueFootnotesModel {
    pub value: Option<ValueModel>,
    pub footnote_ids: Option<Seq<Seq<char>>>,
}

impl View for ValueFootnotes {
    type V = ValueFootnotesModel;

    open spec fn view(&self) -> ValueFootnotesModel {
        ValueFootnotesModel {
            value: opt_model(self.value),
            footnote_ids: match self.footnote_ids {
                Some(ids) => Some(ids@.map_values(|s: String| s@)),
                None => None,
            },
        }
    }
}

pub struct Issuer {
    pub cik: String,
    pub name: Option<String>,
    pub trading_symbol: String,
}

pub struct IssuerModel {
    pub cik: Seq<char>,
    pub name: Option<Seq<char>>,
    pub trading_symbol: Seq<char>,
}

impl View for Issuer {
    type V = IssuerModel;

    open spec fn view(&self) -> IssuerModel {
        IssuerModel {
            cik: self.cik@,
            name: opt_model(self.name),
            trading_symbol: self.trading_symbol@,
        }
    }
}

pub struct ReportingOwnerID {
    pub cik: String,
    pub ccc: Option<String>,
    pub name: Option<String>,
}

pub struct ReportingOwnerIDModel {
    pub cik: Seq<char>,
    pub ccc: Option<Seq<char>>,
    pub name: Option<Seq<char>>,
}

impl View for ReportingOwnerID {
    type V = ReportingOwnerIDModel;

    open spec fn view(&self) -> ReportingOwnerIDModel {
        ReportingOwnerIDModel {
            cik: self.cik@,
            ccc: opt_model(self.ccc),
            name: opt_model(self.name),
        }
    }
}

pub struct ReportingOwnerAddress {
    pub street1: Option<String>,
    pub street2: Option<String>,
    pub city: Option<String>,
    pub state: Option<String>,
    pub zip_code: Option<String>,
    pub state_description: Option<String>,
}

pub struct ReportingOwnerAddressModel {
    pub street1: Option<Seq<char>>,
    pub street2: Option<Seq<char>>,
    pub city: Option<Seq<char>>,
    pub state: Option<Seq<char>>,
    pub zip_code: Option<Seq<char>>,
    pub state_description: Option<Seq<char>>,
}

impl View for ReportingOwnerAddress {
    type V = ReportingOwnerAddressModel;

    open spec fn view(&self) -> ReportingOwnerAddressModel {
        ReportingOwnerAddressModel {
            street1: opt_model(self.street1),
            street2: opt_model(self.street2),
            city: opt_model(self.city),
            state: opt_model(self.state),
            zip_code: opt_model(self.zip_code),
            state_description: opt_model(self.state_description),
        }
    }
}

pub struct ReportingOwnerRelationship {
    pub is_director: Option<bool>,
    pub is_officer: Option<bool>,
    pub is_ten_percent_owner: Option<bool>,
    pub is_other: Option<bool>,
    pub officer_title: Option<String>,
    pub other_text: Option<String>,
}

pub struct ReportingOwnerRelationshipModel {
    pub is_director: Option<bool>,
    pub is_officer: Option<bool>,
    pub is_ten_percent_owner: Option<bool>,
    pub is_other: Option<bool>,
    pub officer_title: Option<Seq<char>>,
    pub other_text: Option<Seq<char>>,
}

impl View for ReportingOwnerRelationship {
    type V = ReportingOwnerRelationshipModel;

    open spec fn view(&self) -> ReportingOwnerRelationshipModel {
        ReportingOwnerRelationshipModel {
            is_director: self.is_director,
            is_officer: self.is_officer,
            is_ten_percent_owner: self.is_ten_percent_owner,
            is_other: self.is_other,
            officer_title: opt_model(self.officer_title),
            other_text: opt_model(self.other_text),
        }
    }
}

pub struct ReportingOwner {
    pub id: ReportingOwnerID,
    pub address: Option<ReportingOwnerAddress>,
    pub relationship: Option<ReportingOwnerRelationship>,
}

pub struct ReportingOwnerModel {
    pub id: ReportingOwnerIDModel,
    pub address: Option<ReportingOwnerAddressModel>,
    pub relationship: Option<ReportingOwnerRelationshipModel>,
}

impl View for ReportingOwner {
    type V = ReportingOwnerModel;

    open spec fn view(&self) -> ReportingOwnerModel {
        ReportingOwnerModel {
            id: self.id@,
            address: opt_model(self.address),
            relationship: opt_model(self.relationship),
        }
    }
}

pub struct TransactionCoding {
    pub form_type: Option<String>,
    pub transaction_code: Option<String>,
    pub equity_swap_involved: Option<bool>,
    pub footnote_ids: Option<Vec<String>>,
}

pub struct TransactionCodingModel {
    pub form_type: Option<Seq<char>>,
    pub transaction_code: Option<Seq<char>>,
    pub equity_swap_involved: Option<bool>,
    pub footnote_ids: Option<Seq<Seq<char>>>,
}

impl View for TransactionCoding {
    type V = TransactionCodingModel;

    open spec fn view(&self) -> TransactionCodingModel {
        TransactionCodingModel {
            form_type: opt_model(self.form_type),
            transaction_code: opt_model(self.transaction_code),
            equity_swap_involved: self.equity_swap_involved,
            footnote_ids: match self.footnote_ids {
                Some(ids) => Some(ids@.map_values(|s: String| s@)),
                None => None,
            },
        }
    }
}

pub struct HoldingCoding {
    pub form_type: Option<String>,
    pub footnote_ids: Option<Vec<String>>,
}

pub struct HoldingCodingModel {
    pub form_type: Option<Seq<char>>,
    pub footnote_ids: Option<Seq<Seq<char>>>,
}

impl View for HoldingCoding {
    type V = HoldingCodingModel;

    open spec fn view(&self) -> HoldingCodingModel {
        HoldingCodingModel {
            form_type: opt_model(self.form_type),
            footnote_ids: match self.footnote_ids {
                Some(ids) => Some(ids@.map_values(|s: String| s@)),
                None => None,
            },
        }
    }
}

pub struct TransactionAmounts {
    pub shares: Option<ValueFootnotes>,
    pub price_per_share: Option<ValueFootnotes>,
    pub acquired_disposed_code: Option<ValueFootnotes>,
}

pub struct TransactionAmountsModel {
    pub shares: Option<ValueFootnotesModel>,
    pub price_per_share: Option<ValueFootnotesModel>,
    pub acquired_disposed_code: Option<ValueFootnotesModel>,
}

impl View for TransactionAmounts {
    type V = TransactionAmountsModel;

    open spec fn view(&self) -> TransactionAmountsModel {
        TransactionAmountsModel {
            shares: opt_model(self.shares),
            price_per_share: opt_model(self.price_per_share),
            acquired_disposed_code: opt_model(self.acquired_disposed_code),
        }
    }
}

pub struct DerivativeTransactionAmounts {
    pub shares: Option<ValueFootnotes>,
    pub price_per_share: Option<ValueFootnotes>,
    pub total_value: Option<ValueFootnotes>,
    pub acquired_disposed_code: Option<ValueFootnotes>,
}

pub struct DerivativeTransactionAmountsModel {
    pub shares: Option<ValueFootnotesModel>,
    pub price_per_share: Option<ValueFootnotesModel>,
    pub total_value: Option<ValueFootnotesModel>,
    pub acquired_disposed_code: Option<ValueFootnotesModel>,
}

impl View for DerivativeTransactionAmounts {
    type V = DerivativeTransactionAmountsModel;

    open spec fn view(&self) -> DerivativeTransactionAmountsModel {
        DerivativeTransactionAmountsModel {
            shares: opt_model(self.shares),
            price_per_share: opt_model(self.price_per_share),
            total_value: opt_model(self.total_value),
            acquired_disposed_code: opt_model(self.acquired_disposed_code),
        }
    }
}

pub struct UnderlyingSecurity {
    pub title: Option<ValueFootnotes>,
    pub shares: Option<ValueFootnotes>,
    pub value: Option<ValueFootnotes>,
}

pub struct UnderlyingSecurityModel {
    pub title: Option<ValueFootnotesModel>,
    pub shares: Option<ValueFootnotesModel>,
    pub value: Option<ValueFootnotesModel>,
}

impl View for UnderlyingSecurity {
    type V = UnderlyingSecurityModel;

    open spec fn view(&self) -> UnderlyingSecurityModel {
        UnderlyingSecurityModel {
            title: opt_model(self.title),
            shares: opt_model(self.shares),
            value: opt_model(self.value),
        }
    }
}

pub struct PostTransactionAmounts {
    pub shares_owned_following_transaction: Option<ValueFootnotes>,
    pub value_owned_following_transaction: Option<ValueFootnotes>,
}

pub struct PostTransactionAmountsModel {
    pub shares_owned_following_transaction: Option<ValueFootnotesModel>,
    pub value_owned_following_transaction: Option<ValueFootnotesModel>,
}

impl View for PostTransactionAmounts {
    type V = PostTransactionAmountsModel;

    open spec fn view(&self) -> PostTransactionAmountsModel {
        PostTransactionAmountsModel {
            shares_owned_following_transaction: opt_model(
                self.shares_owned_following_transaction,
            ),
            value_owned_following_transaction: opt_model(self.value_owned_following_transaction),
        }
    }
}

pub struct OwnershipNature {
    pub direct_or_indirect_ownership: Option<ValueFootnotes>,
    pub nature_of_ownership: Option<ValueFootnotes>,
}

pub struct OwnershipNatureModel {
    pub direct_or_indirect_ownership: Option<ValueFootnotesModel>,
    pub nature_of_ownership: Option<ValueFootnotesModel>,
}

impl View for OwnershipNature {
    type V = OwnershipNatureModel;

    open spec fn view(&self) -> OwnershipNatureModel {
        OwnershipNatureModel {
            direct_or_indirect_ownership: opt_model(self.direct_or_indirect_ownership),
            nature_of_ownership: opt_model(self.nature_of_ownership),
        }
    }
}

pub struct NonDerivativeTransaction {
    pub security_title: Option<ValueFootnotes>,
    pub transaction_date: Option<ValueFootnotes>,
    pub deemed_execution_date: Option<ValueFootnotes>,
    pub transaction_coding: Option<TransactionCoding>,
    pub transaction_timeliness: Option<ValueFootnotes>,
    pub transaction_amounts: Option<TransactionAmounts>,
    pub post_transaction_amounts: Option<PostTransactionAmounts>,
    pub ownership_nature: Option<OwnershipNature>,
}

pub struct NonDerivativeTransactionModel {
    pub security_title: Option<ValueFootnotesModel>,
    pub transaction_date: Option<ValueFootnotesModel>,
    pub deemed_execution_date: Option<ValueFootnotesModel>,
    pub transaction_coding: Option<TransactionCodingModel>,
    pub transaction_timeliness: Option<ValueFootnotesModel>,
    pub transaction_amounts: Option<TransactionAmountsModel>,
    pub post_transaction_amounts: Option<PostTransactionAmountsModel>,
    pub ownership_nature: Option<OwnershipNatureModel>,
}

impl View for NonDerivativeTransaction {
    type V = NonDerivativeTransactionModel;

    open spec fn view(&self) -> NonDerivativeTransactionModel {
        NonDerivativeTransactionModel {
            security_title: opt_model(self.security_title),
            transaction_date: opt_model(self.transaction_date),
            deemed_execution_date: opt_model(self.deemed_execution_date),
            transaction_coding: opt_model(self.transaction_coding),
            transaction_timeliness: opt_model(self.transaction_timeliness),
            transaction_amounts: opt_model(self.transaction_amounts),
            post_transaction_amounts: opt_model(self.post_transaction_amounts),
            ownership_nature: opt_model(self.ownership_nature),
        }
    }
}

pub struct DerivativeTransaction {
    pub security_title: Option<ValueFootnotes>,
    pub conversion_or_exercise_price: Option<ValueFootnotes>,
    pub deemed_execution_date: Option<ValueFootnotes>,
    pub transaction_date: Option<ValueFootnotes>,
    pub transaction_coding: Option<TransactionCoding>,
    pub transaction_timeliness: Option<ValueFootnotes>,
    pub transaction_amounts: Option<DerivativeTransactionAmounts>,
    pub exercise_date: Option<ValueFootnotes>,
    pub expiration_date: Option<ValueFootnotes>,
    pub underlying_security: Option<UnderlyingSecurity>,
    pub post_transaction_amounts: Option<PostTransactionAmounts>,
    pub ownership_nature: Option<OwnershipNature>,
}

pub struct DerivativeTransactionModel {
    pub security_title: Option<ValueFootnotesModel>,
    pub conversion_or_exercise_price: Option<ValueFootnotesModel>,
    pub deemed_execution_date: Option<ValueFootnotesModel>,
    pub transaction_date: Option<ValueFootnotesModel>,
    pub transaction_coding: Option<TransactionCodingModel>,
    pub transaction_timeliness: Option<ValueFootnotesModel>,
    pub transaction_amounts: Option<DerivativeTransactionAmountsModel>,
    pub exercise_date: Option<ValueFootnotesModel>,
    pub expiration_date: Option<ValueFootnotesModel>,
    pub underlying_security: Option<UnderlyingSecurityModel>,
    pub post_transaction_amounts: Option<PostTransactionAmountsModel>,
    pub ownership_nature: Option<OwnershipNatureModel>,
}

impl View for DerivativeTransaction {
    type V = DerivativeTransactionModel;

    open spec fn view(&self) -> DerivativeTransactionModel {
        DerivativeTransactionModel {
            security_title: opt_model(self.security_title),
            conversion_or_exercise_price: opt_model(self.conversion_or_exercise_price),
            deemed_execution_date: opt_model(self.deemed_execution_date),
            transaction_date: opt_model(self.transaction_date),
            transaction_coding: opt_model(self.transaction_coding),
            transaction_timeliness: opt_model(self.transaction_timeliness),
            transaction_amounts: opt_model(self.transaction_amounts),
            exercise_date: opt_model(self.exercise_date),
            expiration_date: opt_model(self.expiration_date),
            underlying_security: opt_model(self.underlying_security),
            post_transaction_amounts: opt_model(self.post_transaction_amounts),
            ownership_nature: opt_model(self.ownership_nature),
        }
    }
}

pub struct NonDerivativeHolding {
    pub security_title: Option<ValueFootnotes>,
    pub transaction_coding: Option<HoldingCoding>,
    pub post_transaction_amounts: Option<PostTransactionAmounts>,
    pub ownership_nature: Option<OwnershipNature>,
}

pub struct NonDerivativeHoldingModel {
    pub security_title: Option<ValueFootnotesModel>,
    pub transaction_coding: Option<HoldingCodingModel>,
    pub post_transaction_amounts: Option<PostTransactionAmountsModel>,
    pub ownership_nature: Option<OwnershipNatureModel>,
}

impl View for NonDerivativeHolding {
    type V = NonDerivativeHoldingModel;

    open spec fn view(&self) -> NonDerivativeHoldingModel {
        NonDerivativeHoldingModel {
            security_title: opt_model(self.security_title),
            transaction_coding: opt_model(self.transaction_coding),
            post_transaction_amounts: opt_model(self.post_transaction_amounts),
            ownership_nature: opt_model(self.ownership_nature),
        }
    }
}

pub struct DerivativeHolding {
    pub security_title: Option<ValueFootnotes>,
    pub conversion_or_exercise_price: Option<ValueFootnotes>,
    pub transaction_coding: Option<HoldingCoding>,
    pub exercise_date: Option<ValueFootnotes>,
    pub expiration_date: Option<ValueFootnotes>,
    pub underlying_security: Option<UnderlyingSecurity>,
    pub post_transaction_amounts: Option<PostTransactionAmounts>,
    pub ownership_nature: Option<OwnershipNature>,
}

pub struct DerivativeHoldingModel {
    pub security_title: Option<ValueFootnotesModel>,
    pub conversion_or_exercise_price: Option<ValueFootnotesModel>,
    pub transaction_coding: Option<HoldingCodingModel>,
    pub exercise_date: Option<ValueFootnotesModel>,
    pub expiration_date: Option<ValueFootnotesModel>,
    pub underlying_security: Option<UnderlyingSecurityModel>,
    pub post_transaction_amounts: Option<PostTransactionAmountsModel>,
    pub ownership_nature: Option<OwnershipNatureModel>,
}

impl View for DerivativeHolding {
    type V = DerivativeHoldingModel;

    open spec fn view(&self) -> DerivativeHoldingModel {
        DerivativeHoldingModel {
            security_title: opt_model(self.security_title),
            conversion_or_exercise_price: opt_model(self.conversion_or_exercise_price),
            transaction_coding: opt_model(self.transaction_coding),
            exercise_date: opt_model(self.exercise_date),
            expiration_date: opt_model(self.expiration_date),
            underlying_security: opt_model(self.underlying_security),
            post_transaction_amounts: opt_model(self.post_transaction_amounts),
            ownership_nature: opt_model(self.ownership_nature),
        }
    }
}

pub struct NonDerivativeTable {
    pub transactions: Vec<NonDerivativeTransaction>,
    pub holdings: Vec<NonDerivativeHolding>,
}

pub struct NonDerivativeTableModel {
    pub transactions: Seq<NonDerivativeTransactionModel>,
    pub holdings: Seq<NonDerivativeHoldingModel>,
}

impl View for NonDerivativeTable {
    type V = NonDerivativeTableModel;

    open spec fn view(&self) -> NonDerivativeTableModel {
        NonDerivativeTableModel {
            transactions: self.transactions@.map_values(|t: NonDerivativeTransaction| t@),
            holdings: self.holdings@.map_values(|h: NonDerivativeHolding| h@),
        }
    }
}

pub struct DerivativeTable {
    pub transactions: Vec<DerivativeTransaction>,
    pub holdings: Vec<DerivativeHolding>,
}

pub struct DerivativeTableModel {
    pub transactions: Seq<DerivativeTransactionModel>,
    pub holdings: Seq<DerivativeHoldingModel>,
}

impl View for DerivativeTable {
    type V = DerivativeTableModel;

    open spec fn view(&self) -> DerivativeTableModel {
        DerivativeTableModel {
            transactions: self.transactions@.map_values(|t: DerivativeTransaction| t@),
            holdings: self.holdings@.map_values(|h: DerivativeHolding| h@),
        }
    }
}

pub struct Footnote {
    pub id: Option<String>,
    pub note: Option<String>,
}

pub struct FootnoteModel {
    pub id: Option<Seq<char>>,
    pub note: Option<Seq<char>>,
}

impl View for Footnote {
    type V = FootnoteModel;

    open spec fn view(&self) -> FootnoteModel {
        FootnoteModel { id: opt_model(self.id), note: opt_model(self.note) }
    }
}

pub struct OwnerSignature {
    pub name: String,
    pub date: String,
}

pub struct OwnerSignatureModel {
    pub name: Seq<char>,
    pub date: Seq<char>,
}

impl View for OwnerSignature {
    type V = OwnerSignatureModel;

    open spec fn view(&self) -> OwnerSignatureModel {
        OwnerSignatureModel { name: self.name@, date: self.date@ }
    }
}

pub struct OwnershipForm {
    pub schema_version: Option<String>,
    pub document_type: String,
    pub period_of_report: String,
    pub date_of_original_submission: Option<String>,
    pub no_securities_owned: Option<bool>,
    pub not_subject_to_section_16: Option<bool>,
    pub form3_holdings_reported: Option<bool>,
    pub form4_transactions_reported: Option<bool>,
    pub issuer: Issuer,
    pub reporting_owners: Vec<ReportingOwner>,
    pub aff10b5_one: Option<bool>,
    pub non_derivative_table: Option<NonDerivativeTable>,
    pub derivative_table: Option<DerivativeTable>,
    pub footnotes: Vec<Footnote>,
    pub remarks: Option<String>,
    pub owner_signatures: Vec<OwnerSignature>,
}

pub struct OwnershipFormModel {
    pub schema_version: Option<Seq<char>>,
    pub document_type: Seq<char>,
    pub period_of_report: Seq<char>,
    pub date_of_original_submission: Option<Seq<char>>,
    pub no_securities_owned: Option<bool>,
    pub not_subject_to_section_16: Option<bool>,
    pub form3_holdings_reported: Option<bool>,
    pub form4_transactions_reported: Option<bool>,
    pub issuer: IssuerModel,
    pub reporting_owners: Seq<ReportingOwnerModel>,
    pub aff10b5_one: Option<bool>,
    pub non_derivative_table: Option<NonDerivativeTableModel>,
    pub derivative_table: Option<DerivativeTableModel>,
    pub footnotes: Seq<FootnoteModel>,
    pub remarks: Option<Seq<char>>,
    pub owner_signatures: Seq<OwnerSignatureModel>,
}

impl View for OwnershipForm {
    type V = OwnershipFormModel;

    open spec fn view(&self) -> OwnershipFormModel {
        OwnershipFormModel {
            schema_version: opt_model(self.schema_version),
            document_type: self.document_type@,
            period_of_report: self.period_of_report@,
            date_of_original_submission: opt_model(self.date_of_original_submission),
            no_securities_owned: self.no_securities_owned,
            not_subject_to_section_16: self.not_subject_to_section_16,
            form3_holdings_reported: self.form3_holdings_reported,
            form4_transactions_reported: self.form4_transactions_reported,
            issuer: self.issuer@,
            reporting_owners: self.reporting_owners@.map_values(|o: ReportingOwner| o@),
            aff10b5_one: self.aff10b5_one,
            non_derivative_table: opt_model(self.non_derivative_table),
            derivative_table: opt_model(self.derivative_table),
            footnotes: self.footnotes@.map_values(|f: Footnote| f@),
            remarks: opt_model(self.remarks),
            owner_signatures: self.owner_signatures@.map_values(|s: OwnerSignature| s@),
        }
    }
}

/// The id attributes of the first `n` `footnoteId` elements; one without
/// an id attribute contributes nothing.
pub open spec fn footnote_ids_upto(es: Seq<XmlElement>, n: int) -> Seq<Seq<char>>
    decreases n,
{
    if n <= 0 {
        Seq::empty()
    } else {
        footnote_ids_upto(es, n - 1) + match spec_attr(es[n - 1], "id"@) {
            Some(v) => seq![v],
            None => Seq::empty(),
        }
    }
}

/// The footnote references of a node: the id attributes of its
/// `footnoteId` children, in document order.
pub open spec fn spec_footnote_ids(node: XmlElement) -> Seq<Seq<char>> {
    let es = spec_children_with_tag(node, "footnoteId"@);
    footnote_ids_upto(es, es.len() as int)
}

pub fn parse_footnote_ids(node: &XmlElement) -> (r: Vec<String>)
    ensures
        r@.map_values(|s: String| s@) == spec_footnote_ids(*node),
{
    let es = children_with_tag(node, "footnoteId");
    let ghost ses = spec_children_with_tag(*node, "footnoteId"@);
    let mut r: Vec<String> = Vec::new();
    let n = es.len();
    let mut i: usize = 0;
    proof {
        assert(r@.map_values(|s: String| s@) =~= footnote_ids_upto(ses, 0));
    }
    while i < n
        invariant
            n == es@.len(),
            es@.len() == ses.len(),
            forall|j: int| 0 <= j < n ==> *es@[j] == ses[j],
            i <= n,
            r@.map_values(|s: String| s@) == footnote_ids_upto(ses, i as int),
        decreases n - i,
    {
        match attr_of(es[i], "id") {
            Some(v) => {
                let id = v.clone();
                proof {
                    let g = |s: String| s@;
                    assert(r@.push(id).map_values(g) =~= r@.map_values(g).push(id@));
                    assert(footnote_ids_upto(ses, i as int + 1) =~= footnote_ids_upto(
                        ses,
                        i as int,
                    ).push(id@));
                }
                r.push(id);
            },
            None => {
                proof {
                    assert(footnote_ids_upto(ses, i as int + 1) =~= footnote_ids_upto(
                        ses,
                        i as int,
                    ));
                }
            },
        }
        i += 1;
    }
    r
}

/// The leaf value-with-footnotes block under the named child: the
/// inferred value of its `value` child's text (empty text when the child
/// has none), and its footnote references.
pub open spec fn spec_value_footnotes(node: XmlElement, tag: Seq<char>) -> Option<
    ValueFootnotesModel,
> {
    match spec_first_child(node, tag) {
        Some(t) => Some(
            ValueFootnotesModel {
                value: match spec_first_child(t, "value"@) {
                    Some(v) => Some(
                        spec_infer(
                            match spec_text(v) {
                                Some(s) => s,
                                None => Seq::empty(),
                            },
                        ),
                    ),
                    None => None,
                },
                footnote_ids: Some(spec_footnote_ids(t)),
            },
        ),
        None => None,
    }
}

pub fn get_value_footnotes(node: &XmlElement, tag: &str) -> (r: Option<ValueFootnotes>)
    ensures
        opt_model(r) == spec_value_footnotes(*node, tag@),
{
    let t = match first_child(node, tag) {
        Some(t) => t,
        None => {
            return None;
        },
    };
    let value = match first_child(t, "value") {
        Some(v) => match text_of(v) {
            Some(s) => Some(infer_value(s.as_str())),
            None => {
                let empty = String::new();
                Some(infer_value(empty.as_str()))
            },
        },
        None => None,
    };
    let footnote_ids = Some(parse_footnote_ids(t));
    Some(ValueFootnotes { value, footnote_ids })
}

/// The optional transaction-coding block of a transaction.
pub open spec fn spec_transaction_coding(node: XmlElement) -> Option<TransactionCodingModel> {
    match spec_first_child(node, "transactionCoding"@) {
        Some(c) => Some(
            TransactionCodingModel {
                form_type: spec_child_text(c, "transactionFormType"@),
                transaction_code: spec_child_text(c, "transactionCode"@),
                equity_swap_involved: spec_child_bool(c, "equitySwapInvolved"@),
                footnote_ids: Some(spec_footnote_ids(c)),
            },
        ),
        None => None,
    }
}

pub fn parse_transaction_coding(node: &XmlElement) -> (r: Option<TransactionCoding>)
    ensures
        opt_model(r) == spec_transaction_coding(*node),
{
    match first_child(node, "transactionCoding") {
        Some(c) => Some(
            TransactionCoding {
                form_type: child_string(c, "transactionFormType"),
                transaction_code: child_string(c, "transactionCode"),
                equity_swap_involved: child_bool(c, "equitySwapInvolved"),
                footnote_ids: Some(parse_footnote_ids(c)),
            },
        ),
        None => None,
    }
}

/// The optional coding block of a holding: form type and footnotes only.
pub open spec fn spec_holding_coding(node: XmlElement) -> Option<HoldingCodingModel> {
    match spec_first_child(node, "transactionCoding"@) {
        Some(c) => Some(
            HoldingCodingModel {
                form_type: spec_child_text(c, "transactionFormType"@),
                footnote_ids: Some(spec_footnote_ids(c)),
            },
        ),
        None => None,
    }
}

pub fn parse_holding_coding(node: &XmlElement) -> (r: Option<HoldingCoding>)
    ensures
        opt_model(r) == spec_holding_coding(*node),
{
    match first_child(node, "transactionCoding") {
        Some(c) => Some(
            HoldingCoding {
                form_type: child_string(c, "transactionFormType"),
                footnote_ids: Some(parse_footnote_ids(c)),
            },
        ),
        None => None,
    }
}

/// The optional transaction-amounts block.
pub open spec fn spec_transaction_amounts(node: XmlElement) -> Option<TransactionAmountsModel> {
    match spec_first_child(node, "transactionAmounts"@) {
        Some(a) => Some(
            TransactionAmountsModel {
                shares: spec_value_footnotes(a, "transactionShares"@),
                price_per_share: spec_value_footnotes(a, "transactionPricePerShare"@),
                acquired_disposed_code: spec_value_footnotes(
                    a,
                    "transactionAcquiredDisposedCode"@,
                ),
            },
        ),
        None => None,
    }
}

pub fn parse_transaction_amounts(node: &XmlElement) -> (r: Option<TransactionAmounts>)
    ensures
        opt_model(r) == spec_transaction_amounts(*node),
{
    match first_child(node, "transactionAmounts") {
        Some(a) => Some(
            TransactionAmounts {
                shares: get_value_footnotes(a, "transactionShares"),
                price_per_share: get_value_footnotes(a, "transactionPricePerShare"),
                acquired_disposed_code: get_value_footnotes(a, "transactionAcquiredDisposedCode"),
            },
        ),
        None => None,
    }
}

/// The optional derivative transaction-amounts block, which adds the
/// total value.
pub open spec fn spec_derivative_transaction_amounts(node: XmlElement) -> Option<
    DerivativeTransactionAmountsModel,
> {
    match spec_first_child(node, "transactionAmounts"@) {
        Some(a) => Some(
            DerivativeTransactionAmountsModel {
                shares: spec_value_footnotes(a, "transactionShares"@),
                price_per_share: spec_value_footnotes(a, "transactionPricePerShare"@),
                total_value: spec_value_footnotes(a, "transactionTotalValue"@),
                acquired_disposed_code: spec_value_footnotes(
                    a,
                    "transactionAcquiredDisposedCode"@,
                ),
            },
        ),
        None => None,
    }
}

pub fn parse_derivative_transaction_amounts(node: &XmlElement) -> (r: Option<
    DerivativeTransactionAmounts,
>)
    ensures
        opt_model(r) == spec_derivative_transaction_amounts(*node),
{
    match first_child(node, "transactionAmounts") {
        Some(a) => Some(
            DerivativeTransactionAmounts {
                shares: get_value_footnotes(a, "transactionShares"),
                price_per_share: get_value_footnotes(a, "transactionPricePerShare"),
                total_value: get_value_footnotes(a, "transactionTotalValue"),
                acquired_disposed_code: get_value_footnotes(a, "transactionAcquiredDisposedCode"),
            },
        ),
        None => None,
    }
}

/// The optional underlying-security block of a derivative entry.
pub open spec fn spec_underlying_security(node: XmlElement) -> Option<UnderlyingSecurityModel> {
    match spec_first_child(node, "underlyingSecurity"@) {
        Some(s) => Some(
            UnderlyingSecurityModel {
                title: spec_value_footnotes(s, "underlyingSecurityTitle"@),
                shares: spec_value_footnotes(s, "underlyingSecurityShares"@),
                value: spec_value_footnotes(s, "underlyingSecurityValue"@),
            },
        ),
        None => None,
    }
}

pub fn parse_underlying_security(node: &XmlElement) -> (r: Option<UnderlyingSecurity>)
    ensures
        opt_model(r) == spec_underlying_security(*node),
{
    match first_child(node, "underlyingSecurity") {
        Some(s) => Some(
            UnderlyingSecurity {
                title: get_value_footnotes(s, "underlyingSecurityTitle"),
                shares: get_value_footnotes(s, "underlyingSecurityShares"),
                value: get_value_footnotes(s, "underlyingSecurityValue"),
            },
        ),
        None => None,
    }
}

/// The optional post-transaction-amounts block.
pub open spec fn spec_post_transaction_amounts(node: XmlElement) -> Option<
    PostTransactionAmountsModel,
> {
    match spec_first_child(node, "postTransactionAmounts"@) {
        Some(a) => Some(
            PostTransactionAmountsModel {
                shares_owned_following_transaction: spec_value_footnotes(
                    a,
                    "sharesOwnedFollowingTransaction"@,
                ),
                value_owned_following_transaction: spec_value_footnotes(
                    a,
                    "valueOwnedFollowingTransaction"@,
                ),
            },
        ),
        None => None,
    }
}

pub fn parse_post_transaction_amounts(node: &XmlElement) -> (r: Option<PostTransactionAmounts>)
    ensures
        opt_model(r) == spec_post_transaction_amounts(*node),
{
    match first_child(node, "postTransactionAmounts") {
        Some(a) => Some(
            PostTransactionAmounts {
                shares_owned_following_transaction: get_value_footnotes(
                    a,
                    "sharesOwnedFollowingTransaction",
                ),
                value_owned_following_transaction: get_value_footnotes(
                    a,
                    "valueOwnedFollowingTransaction",
                ),
            },
        ),
        None => None,
    }
}

/// The optional ownership-nature block.
pub open spec fn spec_ownership_nature(node: XmlElement) -> Option<OwnershipNatureModel> {
    match spec_first_child(node, "ownershipNature"@) {
        Some(a) => Some(
            OwnershipNatureModel {
                direct_or_indirect_ownership: spec_value_footnotes(
                    a,
                    "directOrIndirectOwnership"@,
                ),
                nature_of_ownership: spec_value_footnotes(a, "natureOfOwnership"@),
            },
        ),
        None => None,
    }
}

pub fn parse_ownership_nature(node: &XmlElement) -> (r: Option<OwnershipNature>)
    ensures
        opt_model(r) == spec_ownership_nature(*node),
{
    match first_child(node, "ownershipNature") {
        Some(a) => Some(
            OwnershipNature {
                direct_or_indirect_ownership: get_value_footnotes(a, "directOrIndirectOwnership"),
                nature_of_ownership: get_value_footnotes(a, "natureOfOwnership"),
            },
        ),
        None => None,
    }
}

/// One non-derivative transaction entry; every block is optional.
pub open spec fn spec_non_derivative_transaction(e: XmlElement) -> NonDerivativeTransactionModel {
    NonDerivativeTransactionModel {
        security_title: spec_value_footnotes(e, "securityTitle"@),
        transaction_date: spec_value_footnotes(e, "transactionDate"@),
        deemed_execution_date: spec_value_footnotes(e, "deemedExecutionDate"@),
        transaction_coding: spec_transaction_coding(e),
        transaction_timeliness: spec_value_footnotes(e, "transactionTimeliness"@),
        transaction_amounts: spec_transaction_amounts(e),
        post_transaction_amounts: spec_post_transaction_amounts(e),
        ownership_nature: spec_ownership_nature(e),
    }
}

fn parse_non_derivative_transaction(e: &XmlElement) -> (r: NonDerivativeTransaction)
    ensures
        r@ == spec_non_derivative_transaction(*e),
{
    NonDerivativeTransaction {
        security_title: get_value_footnotes(e, "securityTitle"),
        transaction_date: get_value_footnotes(e, "transactionDate"),
        deemed_execution_date: get_value_footnotes(e, "deemedExecutionDate"),
        transaction_coding: parse_transaction_coding(e),
        transaction_timeliness: get_value_footnotes(e, "transactionTimeliness"),
        transaction_amounts: parse_transaction_amounts(e),
        post_transaction_amounts: parse_post_transaction_amounts(e),
        ownership_nature: parse_ownership_nature(e),
    }
}

/// One derivative transaction entry; every block is optional.
pub open spec fn spec_derivative_transaction(e: XmlElement) -> DerivativeTransactionModel {
    DerivativeTransactionModel {
        security_title: spec_value_footnotes(e, "securityTitle"@),
        conversion_or_exercise_price: spec_value_footnotes(e, "conversionOrExercisePrice"@),
        deemed_execution_date: spec_value_footnotes(e, "deemedExecutionDate"@),
        transaction_date: spec_value_footnotes(e, "transactionDate"@),
        transaction_coding: spec_transaction_coding(e),
        transaction_timeliness: spec_value_footnotes(e, "transactionTimeliness"@),
        transaction_amounts: spec_derivative_transaction_amounts(e),
        exercise_date: spec_value_footnotes(e, "exerciseDate"@),
        expiration_date: spec_value_footnotes(e, "expirationDate"@),
        underlying_security: spec_underlying_security(e),
        post_transaction_amounts: spec_post_transaction_amounts(e),
        ownership_nature: spec_ownership_nature(e),
    }
}

fn parse_derivative_transaction(e: &XmlElement) -> (r: DerivativeTransaction)
    ensures
        r@ == spec_derivative_transaction(*e),
{
    DerivativeTransaction {
        security_title: get_value_footnotes(e, "securityTitle"),
        conversion_or_exercise_price: get_value_footnotes(e, "conversionOrExercisePrice"),
        deemed_execution_date: get_value_footnotes(e, "deemedExecutionDate"),
        transaction_date: get_value_footnotes(e, "transactionDate"),
        transaction_coding: parse_transaction_coding(e),
        transaction_timeliness: get_value_footnotes(e, "transactionTimeliness"),
        transaction_amounts: parse_derivative_transaction_amounts(e),
        exercise_date: get_value_footnotes(e, "exerciseDate"),
        expiration_date: get_value_footnotes(e, "expirationDate"),
        underlying_security: parse_underlying_security(e),
        post_transaction_amounts: parse_post_transaction_amounts(e),
        ownership_nature: parse_ownership_nature(e),
    }
}

/// One non-derivative holding entry; every block is optional.
pub open spec fn spec_non_derivative_holding(e: XmlElement) -> NonDerivativeHoldingModel {
    NonDerivativeHoldingModel {
        security_title: spec_value_footnotes(e, "securityTitle"@),
        transaction_coding: spec_holding_coding(e),
        post_transaction_amounts: spec_post_transaction_amounts(e),
        ownership_nature: spec_ownership_nature(e),
    }
}

fn parse_non_derivative_holding(e: &XmlElement) -> (r: NonDerivativeHolding)
    ensures
        r@ == spec_non_derivative_holding(*e),
{
    NonDerivativeHolding {
        security_title: get_value_footnotes(e, "securityTitle"),
        transaction_coding: parse_holding_coding(e),
        post_transaction_amounts: parse_post_transaction_amounts(e),
        ownership_nature: parse_ownership_nature(e),
    }
}

/// One derivative holding entry; every block is optional.
pub open spec fn spec_derivative_holding(e: XmlElement) -> DerivativeHoldingModel {
    DerivativeHoldingModel {
        security_title: spec_value_footnotes(e, "securityTitle"@),
        conversion_or_exercise_price: spec_value_footnotes(e, "conversionOrExercisePrice"@),
        transaction_coding: spec_holding_coding(e),
        exercise_date: spec_value_footnotes(e, "exerciseDate"@),
        expiration_date: spec_value_footnotes(e, "expirationDate"@),
        underlying_security: spec_underlying_security(e),
        post_transaction_amounts: spec_post_transaction_amounts(e),
        ownership_nature: spec_ownership_nature(e),
    }
}

fn parse_derivative_holding(e: &XmlElement) -> (r: DerivativeHolding)
    ensures
        r@ == spec_derivative_holding(*e),
{
    DerivativeHolding {
        security_title: get_value_footnotes(e, "securityTitle"),
        conversion_or_exercise_price: get_value_footnotes(e, "conversionOrExercisePrice"),
        transaction_coding: parse_holding_coding(e),
        exercise_date: get_value_footnotes(e, "exerciseDate"),
        expiration_date: get_value_footnotes(e, "expirationDate"),
        underlying_security: parse_underlying_security(e),
        post_transaction_amounts: parse_post_transaction_amounts(e),
        ownership_nature: parse_ownership_nature(e),
    }
}

/// The optional non-derivative table: one entry per transaction or
/// holding child, in document order.
pub open spec fn spec_non_derivative_table(node: XmlElement) -> Option<NonDerivativeTableModel> {
    match spec_first_child(node, "nonDerivativeTable"@) {
        Some(t) => Some(
            NonDerivativeTableModel {
                transactions: spec_children_with_tag(t, "nonDerivativeTransaction"@).map_values(
                    |e: XmlElement| spec_non_derivative_transaction(e),
                ),
                holdings: spec_children_with_tag(t, "nonDerivativeHolding"@).map_values(
                    |e: XmlElement| spec_non_derivative_holding(e),
                ),
            },
        ),
        None => None,
    }
}

pub fn parse_non_derivative_table(node: &XmlElement) -> (r: Option<NonDerivativeTable>)
    ensures
        opt_model(r) == spec_non_derivative_table(*node),
{
    let t = match first_child(node, "nonDerivativeTable") {
        Some(t) => t,
        None => {
            return None;
        },
    };
    let tx = children_with_tag(t, "nonDerivativeTransaction");
    let ghost stx = spec_children_with_tag(*t, "nonDerivativeTransaction"@);
    let mut transactions: Vec<NonDerivativeTransaction> = Vec::new();
    let txn = tx.len();
    let mut i: usize = 0;
    while i < txn
        invariant
            txn == tx@.len(),
            tx@.len() == stx.len(),
            forall|j: int| 0 <= j < txn ==> *tx@[j] == stx[j],
            i <= txn,
            transactions@.len() == i,
            forall|j: int|
                0 <= j < i ==> transactions@[j]@ == spec_non_derivative_transaction(stx[j]),
        decreases txn - i,
    {
        let entry = parse_non_derivative_transaction(tx[i]);
        transactions.push(entry);
        i += 1;
    }
    let hx = children_with_tag(t, "nonDerivativeHolding");
    let ghost shx = spec_children_with_tag(*t, "nonDerivativeHolding"@);
    let mut holdings: Vec<NonDerivativeHolding> = Vec::new();
    let hxn = hx.len();
    let mut k: usize = 0;
    while k < hxn
        invariant
            hxn == hx@.len(),
            hx@.len() == shx.len(),
            forall|j: int| 0 <= j < hxn ==> *hx@[j] == shx[j],
            k <= hxn,
            holdings@.len() == k,
            forall|j: int| 0 <= j < k ==> holdings@[j]@ == spec_non_derivative_holding(shx[j]),
        decreases hxn - k,
    {
        let entry = parse_non_derivative_holding(hx[k]);
        holdings.push(entry);
        k += 1;
    }
    let table = NonDerivativeTable { transactions, holdings };
    proof {
        assert(table@.transactions =~= stx.map_values(
            |e: XmlElement| spec_non_derivative_transaction(e),
        ));
        assert(table@.holdings =~= shx.map_values(
            |e: XmlElement| spec_non_derivative_holding(e),
        ));
    }
    Some(table)
}

/// The optional derivative table: one entry per transaction or holding
/// child, in document order.
pub open spec fn spec_derivative_table(node: XmlElement) -> Option<DerivativeTableModel> {
    match spec_first_child(node, "derivativeTable"@) {
        Some(t) => Some(
            DerivativeTableModel {
                transactions: spec_children_with_tag(t, "derivativeTransaction"@).map_values(
                    |e: XmlElement| spec_derivative_transaction(e),
                ),
                holdings: spec_children_with_tag(t, "derivativeHolding"@).map_values(
                    |e: XmlElement| spec_derivative_holding(e),
                ),
            },
        ),
        None => None,
    }
}

pub fn parse_derivative_table(node: &XmlElement) -> (r: Option<DerivativeTable>)
    ensures
        opt_model(r) == spec_derivative_table(*node),
{
    let t = match first_child(node, "derivativeTable") {
        Some(t) => t,
        None => {
            return None;
        },
    };
    let tx = children_with_tag(t, "derivativeTransaction");
    let ghost stx = spec_children_with_tag(*t, "derivativeTransaction"@);
    let mut transactions: Vec<DerivativeTransaction> = Vec::new();
    let txn = tx.len();
    let mut i: usize = 0;
    while i < txn
        invariant
            txn == tx@.len(),
            tx@.len() == stx.len(),
            forall|j: int| 0 <= j < txn ==> *tx@[j] == stx[j],
            i <= txn,
            transactions@.len() == i,
            forall|j: int|
                0 <= j < i ==> transactions@[j]@ == spec_derivative_transaction(stx[j]),
        decreases txn - i,
    {
        let entry = parse_derivative_transaction(tx[i]);
        transactions.push(entry);
        i += 1;
    }
    let hx = children_with_tag(t, "derivativeHolding");
    let ghost shx = spec_children_with_tag(*t, "derivativeHolding"@);
    let mut holdings: Vec<DerivativeHolding> = Vec::new();
    let hxn = hx.len();
    let mut k: usize = 0;
    while k < hxn
        invariant
            hxn == hx@.len(),
            hx@.len() == shx.len(),
            forall|j: int| 0 <= j < hxn ==> *hx@[j] == shx[j],
            k <= hxn,
            holdings@.len() == k,
            forall|j: int| 0 <= j < k ==> holdings@[j]@ == spec_derivative_holding(shx[j]),
        decreases hxn - k,
    {
        let entry = parse_derivative_holding(hx[k]);
        holdings.push(entry);
        k += 1;
    }
    let table = DerivativeTable { transactions, holdings };
    proof {
        assert(table@.transactions =~= stx.map_values(
            |e: XmlElement| spec_derivative_transaction(e),
        ));
        assert(table@.holdings =~= shx.map_values(|e: XmlElement| spec_derivative_holding(e)));
    }
    Some(table)
}

/// The issuer block: cik and trading symbol required, name optional.
pub open spec fn spec_issuer(root: XmlElement) -> Result<IssuerModel, ErrorModel> {
    match spec_first_child(root, "issuer"@) {
        Some(i) => match spec_child_text(i, "issuerCik"@) {
            Some(cik) => match spec_child_text(i, "issuerTradingSymbol"@) {
                Some(trading_symbol) => Ok(
                    IssuerModel { cik, name: spec_child_text(i, "issuerName"@), trading_symbol },
                ),
                None => Err(ErrorModel::MissingElement("issuerTradingSymbol"@)),
            },
            None => Err(ErrorModel::MissingElement("issuerCik"@)),
        },
        None => Err(ErrorModel::MissingElement("issuer"@)),
    }
}

pub fn parse_issuer(root: &XmlElement) -> (r: Result<Issuer, DecodeError>)
    ensures
        res_view(r) == spec_issuer(*root),
{
    let i = match first_child(root, "issuer") {
        Some(i) => i,
        None => {
            return Err(DecodeError::MissingElement("issuer".to_owned()));
        },
    };
    let cik = match child_string(i, "issuerCik") {
        Some(v) => v,
        None => {
            return Err(DecodeError::MissingElement("issuerCik".to_owned()));
        },
    };
    let name = child_string(i, "issuerName");
    let trading_symbol = match child_string(i, "issuerTradingSymbol") {
        Some(v) => v,
        None => {
            return Err(DecodeError::MissingElement("issuerTradingSymbol".to_owned()));
        },
    };
    Ok(Issuer { cik, name, trading_symbol })
}

/// The optional address block of a reporting owner.
pub open spec fn spec_reporting_owner_address(o: XmlElement) -> Option<
    ReportingOwnerAddressModel,
> {
    match spec_first_child(o, "reportingOwnerAddress"@) {
        Some(a) => Some(
            ReportingOwnerAddressModel {
                street1: spec_child_text(a, "rptOwnerStreet1"@),
                street2: spec_child_text(a, "rptOwnerStreet2"@),
                city: spec_child_text(a, "rptOwnerCity"@),
                state: spec_child_text(a, "rptOwnerState"@),
                zip_code: spec_child_text(a, "rptOwnerZipCode"@),
                state_description: spec_child_text(a, "rptOwnerStateDescription"@),
            },
        ),
        None => None,
    }
}

pub fn parse_reporting_owner_address(o: &XmlElement) -> (r: Option<ReportingOwnerAddress>)
    ensures
        opt_model(r) == spec_reporting_owner_address(*o),
{
    match first_child(o, "reportingOwnerAddress") {
        Some(a) => Some(
            ReportingOwnerAddress {
                street1: child_string(a, "rptOwnerStreet1"),
                street2: child_string(a, "rptOwnerStreet2"),
                city: child_string(a, "rptOwnerCity"),
                state: child_string(a, "rptOwnerState"),
                zip_code: child_string(a, "rptOwnerZipCode"),
                state_description: child_string(a, "rptOwnerStateDescription"),
            },
        ),
        None => None,
    }
}

/// The optional relationship block of a reporting owner.
pub open spec fn spec_reporting_owner_relationship(o: XmlElement) -> Option<
    ReportingOwnerRelationshipModel,
> {
    match spec_first_child(o, "reportingOwnerRelationship"@) {
        Some(rl) => Some(
            ReportingOwnerRelationshipModel {
                is_director: spec_child_bool(rl, "isDirector"@),
                is_officer: spec_child_bool(rl, "isOfficer"@),
                is_ten_percent_owner: spec_child_bool(rl, "isTenPercentOwner"@),
                is_other: spec_child_bool(rl, "isOther"@),
                officer_title: spec_child_text(rl, "officerTitle"@),
                other_text: spec_child_text(rl, "otherText"@),
            },
        ),
        None => None,
    }
}

pub fn parse_reporting_owner_relationship(o: &XmlElement) -> (r: Option<
    ReportingOwnerRelationship,
>)
    ensures
        opt_model(r) == spec_reporting_owner_relationship(*o),
{
    match first_child(o, "reportingOwnerRelationship") {
        Some(rl) => Some(
            ReportingOwnerRelationship {
                is_director: child_bool(rl, "isDirector"),
                is_officer: child_bool(rl, "isOfficer"),
                is_ten_percent_owner: child_bool(rl, "isTenPercentOwner"),
                is_other: child_bool(rl, "isOther"),
                officer_title: child_string(rl, "officerTitle"),
                other_text: child_string(rl, "otherText"),
            },
        ),
        None => None,
    }
}

/// One reporting owner, or the missing-element error naming the actually
/// missing tag: `reportingOwnerId` when the id block is absent,
/// `rptOwnerCik` when its cik leaf is.
pub open spec fn spec_reporting_owner(o: XmlElement) -> Result<ReportingOwnerModel, ErrorModel> {
    match spec_first_child(o, "reportingOwnerId"@) {
        Some(idn) => match spec_child_text(idn, "rptOwnerCik"@) {
            Some(cik) => Ok(
                ReportingOwnerModel {
                    id: ReportingOwnerIDModel {
                        cik,
                        ccc: spec_child_text(idn, "rptOwnerCcc"@),
                        name: spec_child_text(idn, "rptOwnerName"@),
                    },
                    address: spec_reporting_owner_address(o),
                    relationship: spec_reporting_owner_relationship(o),
                },
            ),
            None => Err(ErrorModel::MissingElement("rptOwnerCik"@)),
        },
        None => Err(ErrorModel::MissingElement("reportingOwnerId"@)),
    }
}

pub fn parse_reporting_owner(o: &XmlElement) -> (r: Result<ReportingOwner, DecodeError>)
    ensures
        res_view(r) == spec_reporting_owner(*o),
{
    let idn = match first_child(o, "reportingOwnerId") {
        Some(idn) => idn,
        None => {
            return Err(DecodeError::MissingElement("reportingOwnerId".to_owned()));
        },
    };
    let cik = match child_string(idn, "rptOwnerCik") {
        Some(v) => v,
        None => {
            return Err(DecodeError::MissingElement("rptOwnerCik".to_owned()));
        },
    };
    let id = ReportingOwnerID {
        cik,
        ccc: child_string(idn, "rptOwnerCcc"),
        name: child_string(idn, "rptOwnerName"),
    };
    let address = parse_reporting_owner_address(o);
    let relationship = parse_reporting_owner_relationship(o);
    Ok(ReportingOwner { id, address, relationship })
}

/// The models of the first `n` reporting owners, stopping at the first
/// defective one with its error.
pub open spec fn owners_upto(os: Seq<XmlElement>, n: int) -> Result<
    Seq<ReportingOwnerModel>,
    ErrorModel,
>
    decreases n,
{
    if n <= 0 {
        Ok(Seq::empty())
    } else {
        match owners_upto(os, n - 1) {
            Ok(pre) => match spec_reporting_owner(os[n - 1]) {
                Ok(o) => Ok(pre.push(o)),
                Err(e) => Err(e),
            },
            Err(e) => Err(e),
        }
    }
}

/// The reporting owners of the document. A defective owner is rejected
/// under the tag actually missing from it; a document with no
/// `reportingOwner` element at all is rejected under that name.
pub open spec fn spec_reporting_owners(root: XmlElement) -> Result<
    Seq<ReportingOwnerModel>,
    ErrorModel,
> {
    let os = spec_children_with_tag(root, "reportingOwner"@);
    match owners_upto(os, os.len() as int) {
        Ok(s) => if s.len() >= 1 {
            Ok(s)
        } else {
            Err(ErrorModel::MissingElement("reportingOwner"@))
        },
        Err(e) => Err(e),
    }
}

pub fn parse_reporting_owners(root: &XmlElement) -> (r: Result<Vec<ReportingOwner>, DecodeError>)
    ensures
        match r {
            Ok(v) => spec_reporting_owners(*root) == Ok::<_, ErrorModel>(
                v@.map_values(|o: ReportingOwner| o@),
            ),
            Err(e) => spec_reporting_owners(*root) == Err::<Seq<ReportingOwnerModel>, _>(e@),
        },
{
    let os = children_with_tag(root, "reportingOwner");
    let ghost sos = spec_children_with_tag(*root, "reportingOwner"@);
    let mut v: Vec<ReportingOwner> = Vec::new();
    let n = os.len();
    let mut i: usize = 0;
    proof {
        assert(v@.map_values(|o: ReportingOwner| o@) =~= Seq::<ReportingOwnerModel>::empty());
    }
    while i < n
        invariant
            n == os@.len(),
            os@.len() == sos.len(),
            sos == spec_children_with_tag(*root, "reportingOwner"@),
            forall|j: int| 0 <= j < n ==> *os@[j] == sos[j],
            i <= n,
            owners_upto(sos, i as int) == Ok::<_, ErrorModel>(
                v@.map_values(|o: ReportingOwner| o@),
            ),
        decreases n - i,
    {
        match parse_reporting_owner(os[i]) {
            Ok(o) => {
                proof {
                    let g = |o: ReportingOwner| o@;
                    assert(v@.push(o).map_values(g) =~= v@.map_values(g).push(o@));
                }
                v.push(o);
            },
            Err(e) => {
                proof {
                    lemma_owners_upto_err(sos, i as int, sos.len() as int);
                }
                return Err(e);
            },
        }
        i += 1;
    }
    if v.len() == 0 {
        return Err(DecodeError::MissingElement("reportingOwner".to_owned()));
    }
    Ok(v)
}

proof fn lemma_owners_upto_err(os: Seq<XmlElement>, i: int, n: int)
    requires
        0 <= i < n,
        owners_upto(os, i) is Ok,
        spec_reporting_owner(os[i]) is Err,
    ensures
        owners_upto(os, n) == Err::<Seq<ReportingOwnerModel>, ErrorModel>(
            spec_reporting_owner(os[i])->Err_0,
        ),
    decreases n,
{
    if n - 1 > i {
        lemma_owners_upto_err(os, i, n - 1);
    }
}

/// One footnote: its optional id attribute and optional text.
pub open spec fn spec_footnote(f: XmlElement) -> FootnoteModel {
    FootnoteModel { id: spec_attr(f, "id"@), note: spec_text(f) }
}

/// The footnotes contributed by the first `n` `footnotes` blocks, one
/// entry per `footnote` child.
pub open spec fn footnotes_upto(blocks: Seq<XmlElement>, n: int) -> Seq<FootnoteModel>
    decreases n,
{
    if n <= 0 {
        Seq::empty()
    } else {
        footnotes_upto(blocks, n - 1) + spec_children_with_tag(
            blocks[n - 1],
            "footnote"@,
        ).map_values(|f: XmlElement| spec_footnote(f))
    }
}

/// All footnotes of the document, in document order.
pub open spec fn spec_footnotes(root: XmlElement) -> Seq<FootnoteModel> {
    let blocks = spec_children_with_tag(root, "footnotes"@);
    footnotes_upto(blocks, blocks.len() as int)
}

pub fn parse_footnotes(root: &XmlElement) -> (r: Vec<Footnote>)
    ensures
        r@.map_values(|f: Footnote| f@) == spec_footnotes(*root),
{
    let blocks = children_with_tag(root, "footnotes");
    let ghost sblocks = spec_children_with_tag(*root, "footnotes"@);
    let mut r: Vec<Footnote> = Vec::new();
    let n = blocks.len();
    let mut i: usize = 0;
    proof {
        assert(r@.map_values(|f: Footnote| f@) =~= footnotes_upto(sblocks, 0));
    }
    while i < n
        invariant
            n == blocks@.len(),
            blocks@.len() == sblocks.len(),
            forall|j: int| 0 <= j < n ==> *blocks@[j] == sblocks[j],
            i <= n,
            r@.map_values(|f: Footnote| f@) == footnotes_upto(sblocks, i as int),
        decreases n - i,
    {
        let fs = children_with_tag(blocks[i], "footnote");
        let ghost sfs = spec_children_with_tag(sblocks[i as int], "footnote"@);
        let fn_count = fs.len();
        let mut k: usize = 0;
        while k < fn_count
            invariant
                fn_count == fs@.len(),
                fs@.len() == sfs.len(),
                forall|j: int| 0 <= j < fn_count ==> *fs@[j] == sfs[j],
                k <= fn_count,
                r@.map_values(|f: Footnote| f@) == footnotes_upto(sblocks, i as int)
                    + sfs.subrange(0, k as int).map_values(|f: XmlElement| spec_footnote(f)),
            decreases fn_count - k,
        {
            let id = match attr_of(fs[k], "id") {
                Some(v) => Some(v.clone()),
                None => None,
            };
            let note = match text_of(fs[k]) {
                Some(t) => Some(t.clone()),
                None => None,
            };
            let entry = Footnote { id, note };
            proof {
                let f = |f: XmlElement| spec_footnote(f);
                let g = |f: Footnote| f@;
                assert(sfs.subrange(0, k as int + 1) =~= sfs.subrange(0, k as int).push(
                    sfs[k as int],
                ));
                assert(sfs.subrange(0, k as int + 1).map_values(f) =~= sfs.subrange(
                    0,
                    k as int,
                ).map_values(f).push(f(sfs[k as int])));
                assert(r@.push(entry).map_values(g) =~= r@.map_values(g).push(g(entry)));
            }
            r.push(entry);
            k += 1;
        }
        proof {
            assert(sfs.subrange(0, fn_count as int) =~= sfs);
            assert(footnotes_upto(sblocks, i as int + 1) == footnotes_upto(sblocks, i as int)
                + sfs.map_values(|f: XmlElement| spec_footnote(f)));
        }
        i += 1;
    }
    r
}

/// One owner signature: name and date both required.
pub open spec fn spec_owner_signature(s: XmlElement) -> Result<OwnerSignatureModel, ErrorModel> {
    match spec_child_text(s, "signatureName"@) {
        Some(name) => match spec_child_text(s, "signatureDate"@) {
            Some(date) => Ok(OwnerSignatureModel { name, date }),
            None => Err(ErrorModel::MissingElement("signatureDate"@)),
        },
        None => Err(ErrorModel::MissingElement("signatureName"@)),
    }
}

/// The first `n` owner signatures, stopping at the first defective one
/// with its error.
pub open spec fn signatures_upto(es: Seq<XmlElement>, n: int) -> Result<
    Seq<OwnerSignatureModel>,
    ErrorModel,
>
    decreases n,
{
    if n <= 0 {
        Ok(Seq::empty())
    } else {
        match signatures_upto(es, n - 1) {
            Ok(pre) => match spec_owner_signature(es[n - 1]) {
                Ok(s) => Ok(pre.push(s)),
                Err(e) => Err(e),
            },
            Err(e) => Err(e),
        }
    }
}

/// All owner signatures of the document, or the first missing field.
pub open spec fn spec_owner_signatures(root: XmlElement) -> Result<
    Seq<OwnerSignatureModel>,
    ErrorModel,
> {
    let es = spec_children_with_tag(root, "ownerSignature"@);
    signatures_upto(es, es.len() as int)
}

pub fn parse_owner_signatures(root: &XmlElement) -> (r: Result<Vec<OwnerSignature>, DecodeError>)
    ensures
        match r {
            Ok(v) => spec_owner_signatures(*root) == Ok::<_, ErrorModel>(
                v@.map_values(|s: OwnerSignature| s@),
            ),
            Err(e) => spec_owner_signatures(*root) == Err::<Seq<OwnerSignatureModel>, _>(e@),
        },
{
    let es = children_with_tag(root, "ownerSignature");
    let ghost ses = spec_children_with_tag(*root, "ownerSignature"@);
    let mut v: Vec<OwnerSignature> = Vec::new();
    let n = es.len();
    let mut i: usize = 0;
    proof {
        assert(v@.map_values(|s: OwnerSignature| s@) =~= Seq::<OwnerSignatureModel>::empty());
    }
    while i < n
        invariant
            n == es@.len(),
            es@.len() == ses.len(),
            ses == spec_children_with_tag(*root, "ownerSignature"@),
            forall|j: int| 0 <= j < n ==> *es@[j] == ses[j],
            i <= n,
            signatures_upto(ses, i as int) == Ok::<_, ErrorModel>(
                v@.map_values(|s: OwnerSignature| s@),
            ),
        decreases n - i,
    {
        let name = match child_string(es[i], "signatureName") {
            Some(x) => x,
            None => {
                proof {
                    lemma_signatures_upto_err(ses, i as int, ses.len() as int);
                }
                return Err(DecodeError::MissingElement("signatureName".to_owned()));
            },
        };
        let date = match child_string(es[i], "signatureDate") {
            Some(x) => x,
            None => {
                proof {
                    lemma_signatures_upto_err(ses, i as int, ses.len() as int);
                }
                return Err(DecodeError::MissingElement("signatureDate".to_owned()));
            },
        };
        let entry = OwnerSignature { name, date };
        proof {
            let g = |s: OwnerSignature| s@;
            assert(v@.push(entry).map_values(g) =~= v@.map_values(g).push(entry@));
        }
        v.push(entry);
        i += 1;
    }
    Ok(v)
}

proof fn lemma_signatures_upto_err(es: Seq<XmlElement>, i: int, n: int)
    requires
        0 <= i < n,
        signatures_upto(es, i) is Ok,
        spec_owner_signature(es[i]) is Err,
    ensures
        signatures_upto(es, n) == Err::<Seq<OwnerSignatureModel>, ErrorModel>(
            spec_owner_signature(es[i])->Err_0,
        ),
    decreases n,
{
    if n - 1 > i {
        lemma_signatures_upto_err(es, i, n - 1);
    }
}

/// A whole insider-ownership report read from the root element. Required:
/// document type, period of report, the issuer's cik and trading symbol,
/// at least one well-formed reporting owner, and a name and date in every
/// owner signature. Everything else is optional or tolerant.
pub open spec fn spec_ownership_form(root: XmlElement) -> Result<OwnershipFormModel, ErrorModel> {
    match spec_child_text(root, "documentType"@) {
        Some(document_type) => match spec_child_text(root, "periodOfReport"@) {
            Some(period_of_report) => match spec_issuer(root) {
                Ok(issuer) => match spec_reporting_owners(root) {
                    Ok(reporting_owners) => match spec_owner_signatures(root) {
                        Ok(owner_signatures) => Ok(
                            OwnershipFormModel {
                                schema_version: spec_child_text(root, "schemaVersion"@),
                                document_type,
                                period_of_report,
                                date_of_original_submission: spec_child_text(
                                    root,
                                    "dateOfOriginalSubmission"@,
                                ),
                                no_securities_owned: spec_child_bool(root, "noSecuritiesOwned"@),
                                not_subject_to_section_16: spec_child_bool(
                                    root,
                                    "notSubjectToSection16"@,
                                ),
                                form3_holdings_reported: spec_child_bool(
                                    root,
                                    "form3HoldingsReported"@,
                                ),
                                form4_transactions_reported: spec_child_bool(
                                    root,
                                    "form4TransactionsReported"@,
                                ),
                                issuer,
                                reporting_owners,
                                aff10b5_one: spec_child_bool(root, "aff10b5One"@),
                                non_derivative_table: spec_non_derivative_table(root),
                                derivative_table: spec_derivative_table(root),
                                footnotes: spec_footnotes(root),
                                remarks: spec_child_text(root, "remarks"@),
                                owner_signatures,
                            },
                        ),
                        Err(e) => Err(e),
                    },
                    Err(e) => Err(e),
                },
                Err(e) => Err(e),
            },
            None => Err(ErrorModel::MissingElement("periodOfReport"@)),
        },
        None => Err(ErrorModel::MissingElement("documentType"@)),
    }
}

/// Decodes an insider-ownership report from XML text: malformed XML is
/// fatal with the parser's message, as is any missing required field,
/// reported with the missing tag's name.
pub fn parse_ownership_form(form: &str) -> (r: Result<OwnershipForm, DecodeError>)
    ensures
        match r {
            Ok(x) => match parsed_xml(form@) {
                Ok(d) => spec_ownership_form(d.root) == Ok::<_, ErrorModel>(x@),
                Err(_) => false,
            },
            Err(e) => match parsed_xml(form@) {
                Ok(d) => spec_ownership_form(d.root) == Err::<OwnershipFormModel, _>(e@),
                Err(m) => e@ == ErrorModel::MalformedXml(m),
            },
        },
{
    let doc = match parse_xml_document(form) {
        Ok(doc) => doc,
        Err(e) => {
            return Err(e);
        },
    };
    let root = &doc.root;
    let schema_version = child_string(root, "schemaVersion");
    let document_type = match child_string(root, "documentType") {
        Some(v) => v,
        None => {
            return Err(DecodeError::MissingElement("documentType".to_owned()));
        },
    };
    let period_of_report = match child_string(root, "periodOfReport") {
        Some(v) => v,
        None => {
            return Err(DecodeError::MissingElement("periodOfReport".to_owned()));
        },
    };
    let date_of_original_submission = child_string(root, "dateOfOriginalSubmission");
    let no_securities_owned = child_bool(root, "noSecuritiesOwned");
    let not_subject_to_section_16 = child_bool(root, "notSubjectToSection16");
    let form3_holdings_reported = child_bool(root, "form3HoldingsReported");
    let form4_transactions_reported = child_bool(root, "form4TransactionsReported");
    let aff10b5_one = child_bool(root, "aff10b5One");
    let issuer = match parse_issuer(root) {
        Ok(v) => v,
        Err(e) => {
            return Err(e);
        },
    };
    let reporting_owners = match parse_reporting_owners(root) {
        Ok(v) => v,
        Err(e) => {
            return Err(e);
        },
    };
    let non_derivative_table = parse_non_derivative_table(root);
    let derivative_table = parse_derivative_table(root);
    let footnotes = parse_footnotes(root);
    let remarks = child_string(root, "remarks");
    let owner_signatures = match parse_owner_signatures(root) {
        Ok(v) => v,
        Err(e) => {
            return Err(e);
        },
    };
    Ok(
        OwnershipForm {
            schema_version,
            document_type,
            period_of_report,
            date_of_original_submission,
            no_securities_owned,
            not_subject_to_section_16,
            form3_holdings_reported,
            form4_transactions_reported,
            issuer,
            reporting_owners,
            aff10b5_one,
            non_derivative_table,
            derivative_table,
            footnotes,
            remarks,
            owner_signatures,
        },
    )
}

} // verus!
