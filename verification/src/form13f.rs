//! The institutional-holdings report decoder: fixed-shape field
//! extraction over the parsed tree, with no dictionaries and no
//! cross-referencing. A missing required field is fatal and reported with
//! the missing tag's name; optional fields and whole optional sections are
//! simply absent. Typed leaves use the shared integer grammar and the
//! schema-form boolean recognizer.

use vstd::prelude::*;
use vstd::string::StringExecFns;
use crate::{DecodeError, ErrorModel, res_view, opt_model};
use crate::value::{
    spec_child_bool, child_bool, spec_child_i32, child_i32, spec_child_i64, child_i64,
    spec_child_ints, child_ints, child_string,
};
use crate::xml::{
    XmlElement, spec_first_child, first_child, spec_children_with_tag, children_with_tag,
    spec_child_text, parsed_xml, parse_xml_document,
};

verus! {

pub struct Credentials {
    pub cik: String,
    pub ccc: String,
}

pub struct CredentialsModel {
    pub cik: Seq<char>,
    pub ccc: Seq<char>,
}

impl View for Credentials {
    type V = CredentialsModel;

    open spec fn view(&self) -> CredentialsModel {
        CredentialsModel { cik: self.cik@, ccc: self.ccc@ }
    }
}

pub struct Filer {
    pub credentials: Credentials,
    pub file_number: Option<String>,
}

pub struct FilerModel {
    pub credentials: CredentialsModel,
    pub file_number: Option<Seq<char>>,
}

impl View for Filer {
    type V = FilerModel;

    open spec fn view(&self) -> FilerModel {
        FilerModel { credentials: self.credentials@, file_number: opt_model(self.file_number) }
    }
}

pub struct Flags {
    pub confirming_copy_flag: Option<bool>,
    pub return_copy_flag: Option<bool>,
    pub override_internet_flag: Option<bool>,
}

pub struct FlagsModel {
    pub confirming_copy_flag: Option<bool>,
    pub return_copy_flag: Option<bool>,
    pub override_internet_flag: Option<bool>,
}

impl View for Flags {
    type V = FlagsModel;

    open spec fn view(&self) -> FlagsModel {
        FlagsModel {
            confirming_copy_flag: self.confirming_copy_flag,
            return_copy_flag: self.return_copy_flag,
            override_internet_flag: self.override_internet_flag,
        }
    }
}

pub struct Contact {
    pub name: Option<String>,
    pub phone_number: Option<String>,
    pub email_address: Option<String>,
}

pub struct ContactModel {
    pub name: Option<Seq<char>>,
    pub phone_number: Option<Seq<char>>,
    pub email_address: Option<Seq<char>>,
}

impl View for Contact {
    type V = ContactModel;

    open spec fn view(&self) -> ContactModel {
        ContactModel {
            name: opt_model(self.name),
            phone_number: opt_model(self.phone_number),
            email_address: opt_model(self.email_address),
        }
    }
}

pub struct Notifications {
    pub email_address: Option<String>,
}

pub struct NotificationsModel {
    pub email_address: Option<Seq<char>>,
}

impl View for Notifications {
    type V = NotificationsModel;

    open spec fn view(&self) -> NotificationsModel {
        NotificationsModel { email_address: opt_model(self.email_address) }
    }
}

pub struct FilerInfo {
    pub live_test_flag: String,
    pub flags: Option<Flags>,
    pub filer: Filer,
    pub contact: Option<Contact>,
    pub notifications: Option<Notifications>,
    pub period_of_report: String,
    pub denovo_request: Option<bool>,
}

pub struct FilerInfoModel {
    pub live_test_flag: Seq<char>,
    pub flags: Option<FlagsModel>,
    pub filer: FilerModel,
    pub contact: Option<ContactModel>,
    pub notifications: Option<NotificationsModel>,
    pub period_of_report: Seq<char>,
    pub denovo_request: Option<bool>,
}

impl View for FilerInfo {
    type V = FilerInfoModel;

    open spec fn view(&self) -> FilerInfoModel {
        FilerInfoModel {
            live_test_flag: self.live_test_flag@,
            flags: opt_model(self.flags),
            filer: self.filer@,
            contact: opt_model(self.contact),
            notifications: opt_model(self.notifications),
            period_of_report: self.period_of_report@,
            denovo_request: self.denovo_request,
        }
    }
}

pub struct HeaderData {
    pub submission_type: String,
    pub filer_info: FilerInfo,
}

pub struct HeaderDataModel {
    pub submission_type: Seq<char>,
    pub filer_info: FilerInfoModel,
}

impl View for HeaderData {
    type V = HeaderDataModel;

    open spec fn view(&self) -> HeaderDataModel {
        HeaderDataModel { submission_type: self.submission_type@, filer_info: self.filer_info@ }
    }
}

pub struct Address {
    pub street1: String,
    pub street2: Option<String>,
    pub city: String,
    pub state_or_country: String,
    pub zip_code: String,
}

pub struct AddressModel {
    pub street1: Seq<char>,
    pub street2: Option<Seq<char>>,
    pub city: Seq<char>,
    pub state_or_country: Seq<char>,
    pub zip_code: Seq<char>,
}

impl View for Address {
    type V = AddressModel;

    open spec fn view(&self) -> AddressModel {
        AddressModel {
            street1: self.street1@,
            street2: opt_model(self.street2),
            city: self.city@,
            state_or_country: self.state_or_country@,
            zip_code: self.zip_code@,
        }
    }
}

pub struct FilingManager {
    pub name: String,
    pub address: Address,
}

pub struct FilingManagerModel {
    pub name: Seq<char>,
    pub address: AddressModel,
}

impl View for FilingManager {
    type V = FilingManagerModel;

    open spec fn view(&self) -> FilingManagerModel {
        FilingManagerModel { name: self.name@, address: self.address@ }
    }
}

pub struct OtherManager {
    pub cik: Option<String>,
    pub name: Option<String>,
    pub form_13f_file_number: Option<String>,
    pub crd_number: Option<i32>,
    pub sec_file_number: Option<String>,
}

pub struct OtherManagerModel {
    pub cik: Option<Seq<char>>,
    pub name: Option<Seq<char>>,
    pub form_13f_file_number: Option<Seq<char>>,
    pub crd_number: Option<i32>,
    pub sec_file_number: Option<Seq<char>>,
}

impl View for OtherManager {
    type V = OtherManagerModel;

    open spec fn view(&self) -> OtherManagerModel {
        OtherManagerModel {
            cik: opt_model(self.cik),
            name: opt_model(self.name),
            form_13f_file_number: opt_model(self.form_13f_file_number),
            crd_number: self.crd_number,
            sec_file_number: opt_model(self.sec_file_number),
        }
    }
}

pub struct OtherManagersInfo {
    pub other_manager: Option<OtherManager>,
}

pub struct OtherManagersInfoModel {
    pub other_manager: Option<OtherManagerModel>,
}

impl View for OtherManagersInfo {
    type V = OtherManagersInfoModel;

    open spec fn view(&self) -> OtherManagersInfoModel {
        OtherManagersInfoModel { other_manager: opt_model(self.other_manager) }
    }
}

pub struct AmendmentInfo {
    pub amendment_type: Option<String>,
    pub conf_denied_expired: Option<bool>,
    pub data_denied_expired: Option<String>,
    pub date_reported: Option<String>,
    pub reason_for_non_confidentiality: Option<String>,
}

pub struct AmendmentInfoModel {
    pub amendment_type: Option<Seq<char>>,
    pub conf_denied_expired: Option<bool>,
    pub data_denied_expired: Option<Seq<char>>,
    pub date_reported: Option<Seq<char>>,
    pub reason_for_non_confidentiality: Option<Seq<char>>,
}

impl View for AmendmentInfo {
    type V = AmendmentInfoModel;

    open spec fn view(&self) -> AmendmentInfoModel {
        AmendmentInfoModel {
            amendment_type: opt_model(self.amendment_type),
            conf_denied_expired: self.conf_denied_expired,
            data_denied_expired: opt_model(self.data_denied_expired),
            date_reported: opt_model(self.date_reported),
            reason_for_non_confidentiality: opt_model(self.reason_for_non_confidentiality),
        }
    }
}

pub struct CoverPage {
    pub report_calendar_or_quarter: String,
    pub is_amendment: Option<bool>,
    pub amendment_number: Option<i32>,
    pub amendment_info: Option<AmendmentInfo>,
    pub filing_manager: FilingManager,
    pub report_type: String,
    pub form_13f_file_number: Option<String>,
    pub crd_number: Option<i32>,
    pub sec_file_number: Option<String>,
    pub other_managers_info: Option<OtherManagersInfo>,
    pub provide_info_for_instruction_5: bool,
    pub additional_information: Option<String>,
}

pub struct CoverPageModel {
    pub report_calendar_or_quarter: Seq<char>,
    pub is_amendment: Option<bool>,
    pub amendment_number: Option<i32>,
    pub amendment_info: Option<AmendmentInfoModel>,
    pub filing_manager: FilingManagerModel,
    pub report_type: Seq<char>,
    pub form_13f_file_number: Option<Seq<char>>,
    pub crd_number: Option<i32>,
    pub sec_file_number: Option<Seq<char>>,
    pub other_managers_info: Option<OtherManagersInfoModel>,
    pub provide_info_for_instruction_5: bool,
    pub additional_information: Option<Seq<char>>,
}

impl View for CoverPage {
    type V = CoverPageModel;

    open spec fn view(&self) -> CoverPageModel {
        CoverPageModel {
            report_calendar_or_quarter: self.report_calendar_or_quarter@,
            is_amendment: self.is_amendment,
            amendment_number: self.amendment_number,
            amendment_info: opt_model(self.amendment_info),
            filing_manager: self.filing_manager@,
            report_type: self.report_type@,
            form_13f_file_number: opt_model(self.form_13f_file_number),
            crd_number: self.crd_number,
            sec_file_number: opt_model(self.sec_file_number),
            other_managers_info: opt_model(self.other_managers_info),
            provide_info_for_instruction_5: self.provide_info_for_instruction_5,
            additional_information: opt_model(self.additional_information),
        }
    }
}

pub struct SignatureBlock {
    pub name: String,
    pub title: String,
    pub phone: String,
    pub signature: String,
    pub city: String,
    pub state_or_country: String,
    pub signature_date: String,
}

pub struct SignatureBlockModel {
    pub name: Seq<char>,
    pub title: Seq<char>,
    pub phone: Seq<char>,
    pub signature: Seq<char>,
    pub city: Seq<char>,
    pub state_or_country: Seq<char>,
    pub signature_date: Seq<char>,
}

impl View for SignatureBlock {
    type V = SignatureBlockModel;

    open spec fn view(&self) -> SignatureBlockModel {
        SignatureBlockModel {
            name: self.name@,
            title: self.title@,
            phone: self.phone@,
            signature: self.signature@,
            city: self.city@,
            state_or_country: self.state_or_country@,
            signature_date: self.signature_date@,
        }
    }
}

pub struct OtherManagerWithSequence {
    pub sequence_number: Option<i32>,
    pub manager: Option<OtherManager>,
}

pub struct OtherManagerWithSequenceModel {
    pub sequence_number: Option<i32>,
    pub manager: Option<OtherManagerModel>,
}

impl View for OtherManagerWithSequence {
    type V = OtherManagerWithSequenceModel;

    open spec fn view(&self) -> OtherManagerWithSequenceModel {
        OtherManagerWithSequenceModel {
            sequence_number: self.sequence_number,
            manager: opt_model(self.manager),
        }
    }
}

pub struct SummaryPage {
    pub other_included_managers_count: i32,
    pub table_entry_total: i32,
    pub table_value_total: i64,
    pub is_confidential_omitted: Option<bool>,
    pub other_managers: Vec<OtherManagerWithSequence>,
}

pub struct SummaryPageModel {
    pub other_included_managers_count: i32,
    pub table_entry_total: i32,
    pub table_value_total: i64,
    pub is_confidential_omitted: Option<bool>,
    pub other_managers: Seq<OtherManagerWithSequenceModel>,
}

impl View for SummaryPage {
    type V = SummaryPageModel;

    open spec fn view(&self) -> SummaryPageModel {
        SummaryPageModel {
            other_included_managers_count: self.other_included_managers_count,
            table_entry_total: self.table_entry_total,
            table_value_total: self.table_value_total,
            is_confidential_omitted: self.is_confidential_omitted,
            other_managers: self.other_managers@.map_values(|m: OtherManagerWithSequence| m@),
        }
    }
}

pub struct OtherDocument {
    pub conformed_name: Option<String>,
    pub conformed_document_type: Option<String>,
    pub description: Option<String>,
    pub contents: Option<String>,
}

pub struct OtherDocumentModel {
    pub conformed_name: Option<Seq<char>>,
    pub conformed_document_type: Option<Seq<char>>,
    pub description: Option<Seq<char>>,
    pub contents: Option<Seq<char>>,
}

impl View for OtherDocument {
    type V = OtherDocumentModel;

    open spec fn view(&self) -> OtherDocumentModel {
        OtherDocumentModel {
            conformed_name: opt_model(self.conformed_name),
            conformed_document_type: opt_model(self.conformed_document_type),
            description: opt_model(self.description),
            contents: opt_model(self.contents),
        }
    }
}

pub struct FormData {
    pub cover_page: CoverPage,
    pub signature_block: SignatureBlock,
    pub summary_page: Option<SummaryPage>,
    pub documents: Option<Vec<OtherDocument>>,
}

pub struct FormDataModel {
    pub cover_page: CoverPageModel,
    pub signature_block: SignatureBlockModel,
    pub summary_page: Option<SummaryPageModel>,
    pub documents: Option<Seq<OtherDocumentModel>>,
}

impl View for FormData {
    type V = FormDataModel;

    open spec fn view(&self) -> FormDataModel {
        FormDataModel {
            cover_page: self.cover_page@,
            signature_block: self.signature_block@,
            summary_page: opt_model(self.summary_page),
            documents: match self.documents {
                Some(ds) => Some(ds@.map_values(|d: OtherDocument| d@)),
                None => None,
            },
        }
    }
}

pub struct Form13F {
    pub schema_version: Option<String>,
    pub header_data: HeaderData,
    pub form_data: FormData,
}

pub struct Form13FModel {
    pub schema_version: Option<Seq<char>>,
    pub header_data: HeaderDataModel,
    pub form_data: FormDataModel,
}

impl View for Form13F {
    type V = Form13FModel;

    open spec fn view(&self) -> Form13FModel {
        Form13FModel {
            schema_version: opt_model(self.schema_version),
            header_data: self.header_data@,
            form_data: self.form_data@,
        }
    }
}

pub struct SharesOrPrintAmount {
    pub amount: i64,
    pub shares_or_print_type: String,
}

pub struct SharesOrPrintAmountModel {
    pub amount: i64,
    pub shares_or_print_type: Seq<char>,
}

impl View for SharesOrPrintAmount {
    type V = SharesOrPrintAmountModel;

    open spec fn view(&self) -> SharesOrPrintAmountModel {
        SharesOrPrintAmountModel {
            amount: self.amount,
            shares_or_print_type: self.shares_or_print_type@,
        }
    }
}

pub struct VotingAuthority {
    pub sole: i32,
    pub shared: i32,
    pub none: i32,
}

pub struct VotingAuthorityModel {
    pub sole: i32,
    pub shared: i32,
    pub none: i32,
}

impl View for VotingAuthority {
    type V = VotingAuthorityModel;

    open spec fn view(&self) -> VotingAuthorityModel {
        VotingAuthorityModel { sole: self.sole, shared: self.shared, none: self.none }
    }
}

pub struct TableEntry {
    pub name_of_issuer: String,
    pub title_of_class: String,
    pub cusip: String,
    pub figi: Option<String>,
    pub value: i64,
    pub shares_or_print_amount: SharesOrPrintAmount,
    pub put_call: Option<String>,
    pub investment_discretion: String,
    pub other_manager: Option<Vec<i32>>,
    pub voting_authority: VotingAuthority,
}

pub struct TableEntryModel {
    pub name_of_issuer: Seq<char>,
    pub title_of_class: Seq<char>,
    pub cusip: Seq<char>,
    pub figi: Option<Seq<char>>,
    pub value: i64,
    pub shares_or_print_amount: SharesOrPrintAmountModel,
    pub put_call: Option<Seq<char>>,
    pub investment_discretion: Seq<char>,
    pub other_manager: Option<Seq<i32>>,
    pub voting_authority: VotingAuthorityModel,
}

impl View for TableEntry {
    type V = TableEntryModel;

    open spec fn view(&self) -> TableEntryModel {
        TableEntryModel {
            name_of_issuer: self.name_of_issuer@,
            title_of_class: self.title_of_class@,
            cusip: self.cusip@,
            figi: opt_model(self.figi),
            value: self.value,
            shares_or_print_amount: self.shares_or_print_amount@,
            put_call: opt_model(self.put_call),
            investment_discretion: self.investment_discretion@,
            other_manager: match self.other_manager {
                Some(v) => Some(v@),
                None => None,
            },
            voting_authority: self.voting_authority@,
        }
    }
}

pub struct Form13FTable {
    pub entries: Vec<TableEntry>,
}

pub struct Form13FTableModel {
    pub entries: Seq<TableEntryModel>,
}

impl View for Form13FTable {
    type V = Form13FTableModel;

    open spec fn view(&self) -> Form13FTableModel {
        Form13FTableModel { entries: self.entries@.map_values(|e: TableEntry| e@) }
    }
}

/// The text of the named child, or the missing-element error carrying the
/// tag name.
pub open spec fn req_text(n: XmlElement, tag: Seq<char>) -> Result<Seq<char>, ErrorModel> {
    match spec_child_text(n, tag) {
        Some(s) => Ok(s),
        None => Err(ErrorModel::MissingElement(tag)),
    }
}

/// The boolean of the named child, or the missing-element error (a present
/// but unrecognizable token reads as missing).
pub open spec fn req_bool(n: XmlElement, tag: Seq<char>) -> Result<bool, ErrorModel> {
    match spec_child_bool(n, tag) {
        Some(b) => Ok(b),
        None => Err(ErrorModel::MissingElement(tag)),
    }
}

/// The 32-bit integer of the named child, or the missing-element error.
pub open spec fn req_i32(n: XmlElement, tag: Seq<char>) -> Result<i32, ErrorModel> {
    match spec_child_i32(n, tag) {
        Some(v) => Ok(v),
        None => Err(ErrorModel::MissingElement(tag)),
    }
}

/// The 64-bit integer of the named child, or the missing-element error.
pub open spec fn req_i64(n: XmlElement, tag: Seq<char>) -> Result<i64, ErrorModel> {
    match spec_child_i64(n, tag) {
        Some(v) => Ok(v),
        None => Err(ErrorModel::MissingElement(tag)),
    }
}

pub fn require_string(n: &XmlElement, tag: &str) -> (r: Result<String, DecodeError>)
    ensures
        res_view(r) == req_text(*n, tag@),
{
    match child_string(n, tag) {
        Some(s) => Ok(s),
        None => Err(DecodeError::MissingElement(tag.to_owned())),
    }
}

pub fn require_bool(n: &XmlElement, tag: &str) -> (r: Result<bool, DecodeError>)
    ensures
        res_view(r) == req_bool(*n, tag@),
{
    match child_bool(n, tag) {
        Some(b) => Ok(b),
        None => Err(DecodeError::MissingElement(tag.to_owned())),
    }
}

pub fn require_i32(n: &XmlElement, tag: &str) -> (r: Result<i32, DecodeError>)
    ensures
        res_view(r) == req_i32(*n, tag@),
{
    match child_i32(n, tag) {
        Some(v) => Ok(v),
        None => Err(DecodeError::MissingElement(tag.to_owned())),
    }
}

pub fn require_i64(n: &XmlElement, tag: &str) -> (r: Result<i64, DecodeError>)
    ensures
        res_view(r) == req_i64(*n, tag@),
{
    match child_i64(n, tag) {
        Some(v) => Ok(v),
        None => Err(DecodeError::MissingElement(tag.to_owned())),
    }
}

/// The credentials block of a filer: `cik` and `ccc` are required.
pub open spec fn spec_credentials(node: XmlElement) -> Result<CredentialsModel, ErrorModel> {
    match spec_first_child(node, "credentials"@) {
        Some(c) => match req_text(c, "cik"@) {
            Ok(cik) => match req_text(c, "ccc"@) {
                Ok(ccc) => Ok(CredentialsModel { cik, ccc }),
                Err(e) => Err(e),
            },
            Err(e) => Err(e),
        },
        None => Err(ErrorModel::MissingElement("credentials"@)),
    }
}

pub fn parse_credentials(node: &XmlElement) -> (r: Result<Credentials, DecodeError>)
    ensures
        res_view(r) == spec_credentials(*node),
{
    let c = match first_child(node, "credentials") {
        Some(c) => c,
        None => {
            return Err(DecodeError::MissingElement("credentials".to_owned()));
        },
    };
    let cik = match require_string(c, "cik") {
        Ok(v) => v,
        Err(e) => {
            return Err(e);
        },
    };
    let ccc = match require_string(c, "ccc") {
        Ok(v) => v,
        Err(e) => {
            return Err(e);
        },
    };
    Ok(Credentials { cik, ccc })
}

/// The filer block: credentials required, file number optional.
pub open spec fn spec_filer(node: XmlElement) -> Result<FilerModel, ErrorModel> {
    match spec_first_child(node, "filer"@) {
        Some(f) => match spec_credentials(f) {
            Ok(credentials) => Ok(
                FilerModel { credentials, file_number: spec_child_text(f, "fileNumber"@) },
            ),
            Err(e) => Err(e),
        },
        None => Err(ErrorModel::MissingElement("filer"@)),
    }
}

pub fn parse_filer(node: &XmlElement) -> (r: Result<Filer, DecodeError>)
    ensures
        res_view(r) == spec_filer(*node),
{
    let f = match first_child(node, "filer") {
        Some(f) => f,
        None => {
            return Err(DecodeError::MissingElement("filer".to_owned()));
        },
    };
    let credentials = match parse_credentials(f) {
        Ok(v) => v,
        Err(e) => {
            return Err(e);
        },
    };
    let file_number = child_string(f, "fileNumber");
    Ok(Filer { credentials, file_number })
}

/// The optional flags block: each flag an optional boolean.
pub open spec fn spec_flags(node: XmlElement) -> Option<FlagsModel> {
    match spec_first_child(node, "flags"@) {
        Some(f) => Some(
            FlagsModel {
                confirming_copy_flag: spec_child_bool(f, "confirmingCopyFlag"@),
                return_copy_flag: spec_child_bool(f, "returnCopyFlag"@),
                override_internet_flag: spec_child_bool(f, "overrideInternetFlag"@),
            },
        ),
        None => None,
    }
}

pub fn parse_flags(node: &XmlElement) -> (r: Option<Flags>)
    ensures
        opt_model(r) == spec_flags(*node),
{
    match first_child(node, "flags") {
        Some(f) => Some(
            Flags {
                confirming_copy_flag: child_bool(f, "confirmingCopyFlag"),
                return_copy_flag: child_bool(f, "returnCopyFlag"),
                override_internet_flag: child_bool(f, "overrideInternetFlag"),
            },
        ),
        None => None,
    }
}

/// The optional contact block.
pub open spec fn spec_contact(node: XmlElement) -> Option<ContactModel> {
    match spec_first_child(node, "contact"@) {
        Some(c) => Some(
            ContactModel {
                name: spec_child_text(c, "contactName"@),
                phone_number: spec_child_text(c, "contactPhoneNumber"@),
                email_address: spec_child_text(c, "contactEmailAddress"@),
            },
        ),
        None => None,
    }
}

pub fn parse_contact(node: &XmlElement) -> (r: Option<Contact>)
    ensures
        opt_model(r) == spec_contact(*node),
{
    match first_child(node, "contact") {
        Some(c) => Some(
            Contact {
                name: child_string(c, "contactName"),
                phone_number: child_string(c, "contactPhoneNumber"),
                email_address: child_string(c, "contactEmailAddress"),
            },
        ),
        None => None,
    }
}

/// The optional notifications block.
pub open spec fn spec_notifications(node: XmlElement) -> Option<NotificationsModel> {
    match spec_first_child(node, "notifications"@) {
        Some(c) => Some(NotificationsModel { email_address: spec_child_text(c, "emailAddress"@) }),
        None => None,
    }
}

pub fn parse_notifications(node: &XmlElement) -> (r: Option<Notifications>)
    ensures
        opt_model(r) == spec_notifications(*node),
{
    match first_child(node, "notifications") {
        Some(c) => Some(Notifications { email_address: child_string(c, "emailAddress") }),
        None => None,
    }
}

/// The filer-info block: live/test flag and period of report required,
/// flags, contact and notifications optional, plus the optional de novo
/// request boolean.
pub open spec fn spec_filer_info(node: XmlElement) -> Result<FilerInfoModel, ErrorModel> {
    match spec_first_child(node, "filerInfo"@) {
        Some(fi) => match req_text(fi, "liveTestFlag"@) {
            Ok(live_test_flag) => match spec_filer(fi) {
                Ok(filer) => match req_text(fi, "periodOfReport"@) {
                    Ok(period_of_report) => Ok(
                        FilerInfoModel {
                            live_test_flag,
                            flags: spec_flags(fi),
                            filer,
                            contact: spec_contact(fi),
                            notifications: spec_notifications(fi),
                            period_of_report,
                            denovo_request: spec_child_bool(fi, "denovoRequest"@),
                        },
                    ),
                    Err(e) => Err(e),
                },
                Err(e) => Err(e),
            },
            Err(e) => Err(e),
        },
        None => Err(ErrorModel::MissingElement("filerInfo"@)),
    }
}

pub fn parse_filer_info(node: &XmlElement) -> (r: Result<FilerInfo, DecodeError>)
    ensures
        res_view(r) == spec_filer_info(*node),
{
    let fi = match first_child(node, "filerInfo") {
        Some(fi) => fi,
        None => {
            return Err(DecodeError::MissingElement("filerInfo".to_owned()));
        },
    };
    let live_test_flag = match require_string(fi, "liveTestFlag") {
        Ok(v) => v,
        Err(e) => {
            return Err(e);
        },
    };
    let flags = parse_flags(fi);
    let filer = match parse_filer(fi) {
        Ok(v) => v,
        Err(e) => {
            return Err(e);
        },
    };
    let contact = parse_contact(fi);
    let notifications = parse_notifications(fi);
    let period_of_report = match require_string(fi, "periodOfReport") {
        Ok(v) => v,
        Err(e) => {
            return Err(e);
        },
    };
    let denovo_request = child_bool(fi, "denovoRequest");
    Ok(
        FilerInfo {
            live_test_flag,
            flags,
            filer,
            contact,
            notifications,
            period_of_report,
            denovo_request,
        },
    )
}

/// The header block: submission type required, then the filer info.
pub open spec fn spec_header_data(node: XmlElement) -> Result<HeaderDataModel, ErrorModel> {
    match spec_first_child(node, "headerData"@) {
        Some(h) => match req_text(h, "submissionType"@) {
            Ok(submission_type) => match spec_filer_info(h) {
                Ok(filer_info) => Ok(HeaderDataModel { submission_type, filer_info }),
                Err(e) => Err(e),
            },
            Err(e) => Err(e),
        },
        None => Err(ErrorModel::MissingElement("headerData"@)),
    }
}

pub fn parse_header_data(node: &XmlElement) -> (r: Result<HeaderData, DecodeError>)
    ensures
        res_view(r) == spec_header_data(*node),
{
    let h = match first_child(node, "headerData") {
        Some(h) => h,
        None => {
            return Err(DecodeError::MissingElement("headerData".to_owned()));
        },
    };
    let submission_type = match require_string(h, "submissionType") {
        Ok(v) => v,
        Err(e) => {
            return Err(e);
        },
    };
    let filer_info = match parse_filer_info(h) {
        Ok(v) => v,
        Err(e) => {
            return Err(e);
        },
    };
    Ok(HeaderData { submission_type, filer_info })
}

/// The optional amendment-info block.
pub open spec fn spec_amendment_info(node: XmlElement) -> Option<AmendmentInfoModel> {
    match spec_first_child(node, "amendmentInfo"@) {
        Some(a) => Some(
            AmendmentInfoModel {
                amendment_type: spec_child_text(a, "amendmentType"@),
                conf_denied_expired: spec_child_bool(a, "confDeniedExpired"@),
                data_denied_expired: spec_child_text(a, "dataDeniedExpired"@),
                date_reported: spec_child_text(a, "dataReported"@),
                reason_for_non_confidentiality: spec_child_text(
                    a,
                    "reasonForNonConfidentiality"@,
                ),
            },
        ),
        None => None,
    }
}

pub fn parse_amendment_info(node: &XmlElement) -> (r: Option<AmendmentInfo>)
    ensures
        opt_model(r) == spec_amendment_info(*node),
{
    match first_child(node, "amendmentInfo") {
        Some(a) => Some(
            AmendmentInfo {
                amendment_type: child_string(a, "amendmentType"),
                conf_denied_expired: child_bool(a, "confDeniedExpired"),
                data_denied_expired: child_string(a, "dataDeniedExpired"),
                date_reported: child_string(a, "dataReported"),
                reason_for_non_confidentiality: child_string(a, "reasonForNonConfidentiality"),
            },
        ),
        None => None,
    }
}

/// The filing manager's address: street1, city, state or country, and
/// zip code required; street2 optional.
pub open spec fn spec_address(node: XmlElement) -> Result<AddressModel, ErrorModel> {
    match spec_first_child(node, "address"@) {
        Some(a) => match req_text(a, "street1"@) {
            Ok(street1) => match req_text(a, "city"@) {
                Ok(city) => match req_text(a, "stateOrCountry"@) {
                    Ok(state_or_country) => match req_text(a, "zipCode"@) {
                        Ok(zip_code) => Ok(
                            AddressModel {
                                street1,
                                street2: spec_child_text(a, "street2"@),
                                city,
                                state_or_country,
                                zip_code,
                            },
                        ),
                        Err(e) => Err(e),
                    },
                    Err(e) => Err(e),
                },
                Err(e) => Err(e),
            },
            Err(e) => Err(e),
        },
        None => Err(ErrorModel::MissingElement("address"@)),
    }
}

pub fn parse_filing_manager_address(node: &XmlElement) -> (r: Result<Address, DecodeError>)
    ensures
        res_view(r) == spec_address(*node),
{
    let a = match first_child(node, "address") {
        Some(a) => a,
        None => {
            return Err(DecodeError::MissingElement("address".to_owned()));
        },
    };
    let street1 = match require_string(a, "street1") {
        Ok(v) => v,
        Err(e) => {
            return Err(e);
        },
    };
    let street2 = child_string(a, "street2");
    let city = match require_string(a, "city") {
        Ok(v) => v,
        Err(e) => {
            return Err(e);
        },
    };
    let state_or_country = match require_string(a, "stateOrCountry") {
        Ok(v) => v,
        Err(e) => {
            return Err(e);
        },
    };
    let zip_code = match require_string(a, "zipCode") {
        Ok(v) => v,
        Err(e) => {
            return Err(e);
        },
    };
    Ok(Address { street1, street2, city, state_or_country, zip_code })
}

/// The filing manager: name required, then the address block.
pub open spec fn spec_filing_manager(node: XmlElement) -> Result<FilingManagerModel, ErrorModel> {
    match spec_first_child(node, "filingManager"@) {
        Some(m) => match req_text(m, "name"@) {
            Ok(name) => match spec_address(m) {
                Ok(address) => Ok(FilingManagerModel { name, address }),
                Err(e) => Err(e),
            },
            Err(e) => Err(e),
        },
        None => Err(ErrorModel::MissingElement("filingManager"@)),
    }
}

pub fn parse_filing_manager(node: &XmlElement) -> (r: Result<FilingManager, DecodeError>)
    ensures
        res_view(r) == spec_filing_manager(*node),
{
    let m = match first_child(node, "filingManager") {
        Some(m) => m,
        None => {
            return Err(DecodeError::MissingElement("filingManager".to_owned()));
        },
    };
    let name = match require_string(m, "name") {
        Ok(v) => v,
        Err(e) => {
            return Err(e);
        },
    };
    let address = match parse_filing_manager_address(m) {
        Ok(v) => v,
        Err(e) => {
            return Err(e);
        },
    };
    Ok(FilingManager { name, address })
}

/// The optional other-manager block: every field optional.
pub open spec fn spec_other_manager(node: XmlElement) -> Option<OtherManagerModel> {
    match spec_first_child(node, "otherManager"@) {
        Some(m) => Some(
            OtherManagerModel {
                cik: spec_child_text(m, "cik"@),
                name: spec_child_text(m, "name"@),
                form_13f_file_number: spec_child_text(m, "form13FFileNumber"@),
                crd_number: spec_child_i32(m, "crdNumber"@),
                sec_file_number: spec_child_text(m, "secFileNumber"@),
            },
        ),
        None => None,
    }
}

pub fn parse_other_manager(node: &XmlElement) -> (r: Option<OtherManager>)
    ensures
        opt_model(r) == spec_other_manager(*node),
{
    match first_child(node, "otherManager") {
        Some(m) => Some(
            OtherManager {
                cik: child_string(m, "cik"),
                name: child_string(m, "name"),
                form_13f_file_number: child_string(m, "form13FFileNumber"),
                crd_number: child_i32(m, "crdNumber"),
                sec_file_number: child_string(m, "secFileNumber"),
            },
        ),
        None => None,
    }
}

/// The optional other-managers-info block of the cover page.
pub open spec fn spec_other_managers_info(node: XmlElement) -> Option<OtherManagersInfoModel> {
    match spec_first_child(node, "otherManagersInfo"@) {
        Some(i) => Some(OtherManagersInfoModel { other_manager: spec_other_manager(i) }),
        None => None,
    }
}

pub fn parse_other_managers_info(node: &XmlElement) -> (r: Option<OtherManagersInfo>)
    ensures
        opt_model(r) == spec_other_managers_info(*node),
{
    match first_child(node, "otherManagersInfo") {
        Some(i) => Some(OtherManagersInfo { other_manager: parse_other_manager(i) }),
        None => None,
    }
}

/// The cover page: calendar/quarter, filing manager, report type and the
/// instruction-5 flag are required; the rest optional.
pub open spec fn spec_cover_page(node: XmlElement) -> Result<CoverPageModel, ErrorModel> {
    match spec_first_child(node, "coverPage"@) {
        Some(cp) => match req_text(cp, "reportCalendarOrQuarter"@) {
            Ok(report_calendar_or_quarter) => match spec_filing_manager(cp) {
                Ok(filing_manager) => match req_text(cp, "reportType"@) {
                    Ok(report_type) => match req_bool(cp, "provideInfoForInstruction5"@) {
                        Ok(provide_info_for_instruction_5) => Ok(
                            CoverPageModel {
                                report_calendar_or_quarter,
                                is_amendment: spec_child_bool(cp, "isAmendment"@),
                                amendment_number: spec_child_i32(cp, "amendmentNo"@),
                                amendment_info: spec_amendment_info(cp),
                                filing_manager,
                                report_type,
                                form_13f_file_number: spec_child_text(cp, "form13FFileNumber"@),
                                crd_number: spec_child_i32(cp, "crdNumber"@),
                                sec_file_number: spec_child_text(cp, "secFileNumber"@),
                                other_managers_info: spec_other_managers_info(cp),
                                provide_info_for_instruction_5,
                                additional_information: spec_child_text(
                                    cp,
                                    "additionalInformation"@,
                                ),
                            },
                        ),
                        Err(e) => Err(e),
                    },
                    Err(e) => Err(e),
                },
                Err(e) => Err(e),
            },
            Err(e) => Err(e),
        },
        None => Err(ErrorModel::MissingElement("coverPage"@)),
    }
}

pub fn parse_cover_page(node: &XmlElement) -> (r: Result<CoverPage, DecodeError>)
    ensures
        res_view(r) == spec_cover_page(*node),
{
    let cp = match first_child(node, "coverPage") {
        Some(cp) => cp,
        None => {
            return Err(DecodeError::MissingElement("coverPage".to_owned()));
        },
    };
    let report_calendar_or_quarter = match require_string(cp, "reportCalendarOrQuarter") {
        Ok(v) => v,
        Err(e) => {
            return Err(e);
        },
    };
    let is_amendment = child_bool(cp, "isAmendment");
    let amendment_number = child_i32(cp, "amendmentNo");
    let amendment_info = parse_amendment_info(cp);
    let filing_manager = match parse_filing_manager(cp) {
        Ok(v) => v,
        Err(e) => {
            return Err(e);
        },
    };
    let report_type = match require_string(cp, "reportType") {
        Ok(v) => v,
        Err(e) => {
            return Err(e);
        },
    };
    let form_13f_file_number = child_string(cp, "form13FFileNumber");
    let crd_number = child_i32(cp, "crdNumber");
    let sec_file_number = child_string(cp, "secFileNumber");
    let other_managers_info = parse_other_managers_info(cp);
    let provide_info_for_instruction_5 = match require_bool(cp, "provideInfoForInstruction5") {
        Ok(v) => v,
        Err(e) => {
            return Err(e);
        },
    };
    let additional_information = child_string(cp, "additionalInformation");
    Ok(
        CoverPage {
            report_calendar_or_quarter,
            is_amendment,
            amendment_number,
            amendment_info,
            filing_manager,
            report_type,
            form_13f_file_number,
            crd_number,
            sec_file_number,
            other_managers_info,
            provide_info_for_instruction_5,
            additional_information,
        },
    )
}

/// The signature block: all seven fields required.
pub open spec fn spec_signature_block(node: XmlElement) -> Result<SignatureBlockModel, ErrorModel> {
    match spec_first_child(node, "signatureBlock"@) {
        Some(sb) => match req_text(sb, "name"@) {
            Ok(name) => match req_text(sb, "title"@) {
                Ok(title) => match req_text(sb, "phone"@) {
                    Ok(phone) => match req_text(sb, "signature"@) {
                        Ok(signature) => match req_text(sb, "city"@) {
                            Ok(city) => match req_text(sb, "stateOrCountry"@) {
                                Ok(state_or_country) => match req_text(sb, "signatureDate"@) {
                                    Ok(signature_date) => Ok(
                                        SignatureBlockModel {
                                            name,
                                            title,
                                            phone,
                                            signature,
                                            city,
                                            state_or_country,
                                            signature_date,
                                        },
                                    ),
                                    Err(e) => Err(e),
                                },
                                Err(e) => Err(e),
                            },
                            Err(e) => Err(e),
                        },
                        Err(e) => Err(e),
                    },
                    Err(e) => Err(e),
                },
                Err(e) => Err(e),
            },
            Err(e) => Err(e),
        },
        None => Err(ErrorModel::MissingElement("signatureBlock"@)),
    }
}

pub fn parse_signature_block(node: &XmlElement) -> (r: Result<SignatureBlock, DecodeError>)
    ensures
        res_view(r) == spec_signature_block(*node),
{
    let sb = match first_child(node, "signatureBlock") {
        Some(sb) => sb,
        None => {
            return Err(DecodeError::MissingElement("signatureBlock".to_owned()));
        },
    };
    let name = match require_string(sb, "name") {
        Ok(v) => v,
        Err(e) => {
            return Err(e);
        },
    };
    let title = match require_string(sb, "title") {
        Ok(v) => v,
        Err(e) => {
            return Err(e);
        },
    };
    let phone = match require_string(sb, "phone") {
        Ok(v) => v,
        Err(e) => {
            return Err(e);
        },
    };
    let signature = match require_string(sb, "signature") {
        Ok(v) => v,
        Err(e) => {
            return Err(e);
        },
    };
    let city = match require_string(sb, "city") {
        Ok(v) => v,
        Err(e) => {
            return Err(e);
        },
    };
    let state_or_country = match require_string(sb, "stateOrCountry") {
        Ok(v) => v,
        Err(e) => {
            return Err(e);
        },
    };
    let signature_date = match require_string(sb, "signatureDate") {
        Ok(v) => v,
        Err(e) => {
            return Err(e);
        },
    };
    Ok(SignatureBlock { name, title, phone, signature, city, state_or_country, signature_date })
}

/// One `otherManager2` entry of the summary page: an optional sequence
/// number and an optional nested manager.
pub open spec fn spec_manager_with_sequence(m2: XmlElement) -> OtherManagerWithSequenceModel {
    OtherManagerWithSequenceModel {
        sequence_number: spec_child_i32(m2, "sequenceNumber"@),
        manager: spec_other_manager(m2),
    }
}

/// The summary-page managers contributed by the first `n`
/// `otherManagers2Info` blocks, one entry per `otherManager2` child.
pub open spec fn managers2_upto(infos: Seq<XmlElement>, n: int) -> Seq<
    OtherManagerWithSequenceModel,
>
    decreases n,
{
    if n <= 0 {
        Seq::empty()
    } else {
        managers2_upto(infos, n - 1) + spec_children_with_tag(
            infos[n - 1],
            "otherManager2"@,
        ).map_values(|m2: XmlElement| spec_manager_with_sequence(m2))
    }
}

/// All summary-page managers of a node, in document order.
pub open spec fn spec_other_managers(node: XmlElement) -> Seq<OtherManagerWithSequenceModel> {
    let infos = spec_children_with_tag(node, "otherManagers2Info"@);
    managers2_upto(infos, infos.len() as int)
}

pub fn parse_other_managers(node: &XmlElement) -> (r: Vec<OtherManagerWithSequence>)
    ensures
        r@.map_values(|m: OtherManagerWithSequence| m@) == spec_other_managers(*node),
{
    let infos = children_with_tag(node, "otherManagers2Info");
    let ghost sinfos = spec_children_with_tag(*node, "otherManagers2Info"@);
    let mut r: Vec<OtherManagerWithSequence> = Vec::new();
    let n = infos.len();
    let mut i: usize = 0;
    proof {
        assert(r@.map_values(|m: OtherManagerWithSequence| m@) =~= managers2_upto(sinfos, 0));
    }
    while i < n
        invariant
            n == infos@.len(),
            infos@.len() == sinfos.len(),
            forall|j: int| 0 <= j < n ==> *infos@[j] == sinfos[j],
            i <= n,
            r@.map_values(|m: OtherManagerWithSequence| m@) == managers2_upto(sinfos, i as int),
        decreases n - i,
    {
        let m2s = children_with_tag(infos[i], "otherManager2");
        let ghost sm2s = spec_children_with_tag(sinfos[i as int], "otherManager2"@);
        let mn = m2s.len();
        let mut k: usize = 0;
        while k < mn
            invariant
                mn == m2s@.len(),
                m2s@.len() == sm2s.len(),
                forall|j: int| 0 <= j < mn ==> *m2s@[j] == sm2s[j],
                k <= mn,
                r@.map_values(|m: OtherManagerWithSequence| m@) == managers2_upto(sinfos, i as int)
                    + sm2s.subrange(0, k as int).map_values(
                    |m2: XmlElement| spec_manager_with_sequence(m2),
                ),
            decreases mn - k,
        {
            let entry = OtherManagerWithSequence {
                sequence_number: child_i32(m2s[k], "sequenceNumber"),
                manager: parse_other_manager(m2s[k]),
            };
            proof {
                let f = |m2: XmlElement| spec_manager_with_sequence(m2);
                let g = |m: OtherManagerWithSequence| m@;
                assert(sm2s.subrange(0, k as int + 1) =~= sm2s.subrange(0, k as int).push(
                    sm2s[k as int],
                ));
                assert(sm2s.subrange(0, k as int + 1).map_values(f) =~= sm2s.subrange(
                    0,
                    k as int,
                ).map_values(f).push(f(sm2s[k as int])));
                assert(r@.push(entry).map_values(g) =~= r@.map_values(g).push(g(entry)));
            }
            r.push(entry);
            k += 1;
        }
        proof {
            assert(sm2s.subrange(0, mn as int) =~= sm2s);
            assert(managers2_upto(sinfos, i as int + 1) == managers2_upto(sinfos, i as int)
                + sm2s.map_values(|m2: XmlElement| spec_manager_with_sequence(m2)));
        }
        i += 1;
    }
    r
}

/// The optional summary page: the three totals are required once the page
/// is present; its managers never fail.
pub open spec fn spec_summary_page(node: XmlElement) -> Result<
    Option<SummaryPageModel>,
    ErrorModel,
> {
    match spec_first_child(node, "summaryPage"@) {
        Some(sp) => match req_i32(sp, "otherIncludedManagersCount"@) {
            Ok(other_included_managers_count) => match req_i32(sp, "tableEntryTotal"@) {
                Ok(table_entry_total) => match req_i64(sp, "tableValueTotal"@) {
                    Ok(table_value_total) => Ok(
                        Some(
                            SummaryPageModel {
                                other_included_managers_count,
                                table_entry_total,
                                table_value_total,
                                is_confidential_omitted: spec_child_bool(
                                    sp,
                                    "isConfidentialOmitted"@,
                                ),
                                other_managers: spec_other_managers(sp),
                            },
                        ),
                    ),
                    Err(e) => Err(e),
                },
                Err(e) => Err(e),
            },
            Err(e) => Err(e),
        },
        None => Ok(None),
    }
}

pub fn parse_summary_page(node: &XmlElement) -> (r: Result<Option<SummaryPage>, DecodeError>)
    ensures
        match r {
            Ok(o) => spec_summary_page(*node) == Ok::<_, ErrorModel>(opt_model(o)),
            Err(e) => spec_summary_page(*node) == Err::<Option<SummaryPageModel>, _>(e@),
        },
{
    let sp = match first_child(node, "summaryPage") {
        Some(sp) => sp,
        None => {
            return Ok(None);
        },
    };
    let other_included_managers_count = match require_i32(sp, "otherIncludedManagersCount") {
        Ok(v) => v,
        Err(e) => {
            return Err(e);
        },
    };
    let table_entry_total = match require_i32(sp, "tableEntryTotal") {
        Ok(v) => v,
        Err(e) => {
            return Err(e);
        },
    };
    let table_value_total = match require_i64(sp, "tableValueTotal") {
        Ok(v) => v,
        Err(e) => {
            return Err(e);
        },
    };
    let is_confidential_omitted = child_bool(sp, "isConfidentialOmitted");
    let other_managers = parse_other_managers(sp);
    Ok(
        Some(
            SummaryPage {
                other_included_managers_count,
                table_entry_total,
                table_value_total,
                is_confidential_omitted,
                other_managers,
            },
        ),
    )
}

/// One `document` entry: every field optional.
pub open spec fn spec_document(d: XmlElement) -> OtherDocumentModel {
    OtherDocumentModel {
        conformed_name: spec_child_text(d, "conformedName"@),
        conformed_document_type: spec_child_text(d, "conformedDocumentType"@),
        description: spec_child_text(d, "description"@),
        contents: spec_child_text(d, "contents"@),
    }
}

/// The documents contributed by the first `n` `documents` blocks, one
/// entry per `document` child.
pub open spec fn documents_upto(blocks: Seq<XmlElement>, n: int) -> Seq<OtherDocumentModel>
    decreases n,
{
    if n <= 0 {
        Seq::empty()
    } else {
        documents_upto(blocks, n - 1) + spec_children_with_tag(
            blocks[n - 1],
            "document"@,
        ).map_values(|d: XmlElement| spec_document(d))
    }
}

/// All other documents of the form-data node, in document order.
pub open spec fn spec_documents(node: XmlElement) -> Seq<OtherDocumentModel> {
    let blocks = spec_children_with_tag(node, "documents"@);
    documents_upto(blocks, blocks.len() as int)
}

pub fn parse_documents(node: &XmlElement) -> (r: Vec<OtherDocument>)
    ensures
        r@.map_values(|d: OtherDocument| d@) == spec_documents(*node),
{
    let blocks = children_with_tag(node, "documents");
    let ghost sblocks = spec_children_with_tag(*node, "documents"@);
    let mut r: Vec<OtherDocument> = Vec::new();
    let n = blocks.len();
    let mut i: usize = 0;
    proof {
        assert(r@.map_values(|d: OtherDocument| d@) =~= documents_upto(sblocks, 0));
    }
    while i < n
        invariant
            n == blocks@.len(),
            blocks@.len() == sblocks.len(),
            forall|j: int| 0 <= j < n ==> *blocks@[j] == sblocks[j],
            i <= n,
            r@.map_values(|d: OtherDocument| d@) == documents_upto(sblocks, i as int),
        decreases n - i,
    {
        let ds = children_with_tag(blocks[i], "document");
        let ghost sds = spec_children_with_tag(sblocks[i as int], "document"@);
        let dn = ds.len();
        let mut k: usize = 0;
        while k < dn
            invariant
                dn == ds@.len(),
                ds@.len() == sds.len(),
                forall|j: int| 0 <= j < dn ==> *ds@[j] == sds[j],
                k <= dn,
                r@.map_values(|d: OtherDocument| d@) == documents_upto(sblocks, i as int)
                    + sds.subrange(0, k as int).map_values(|d: XmlElement| spec_document(d)),
            decreases dn - k,
        {
            let entry = OtherDocument {
                conformed_name: child_string(ds[k], "conformedName"),
                conformed_document_type: child_string(ds[k], "conformedDocumentType"),
                description: child_string(ds[k], "description"),
                contents: child_string(ds[k], "contents"),
            };
            proof {
                let f = |d: XmlElement| spec_document(d);
                let g = |d: OtherDocument| d@;
                assert(sds.subrange(0, k as int + 1) =~= sds.subrange(0, k as int).push(
                    sds[k as int],
                ));
                assert(sds.subrange(0, k as int + 1).map_values(f) =~= sds.subrange(
                    0,
                    k as int,
                ).map_values(f).push(f(sds[k as int])));
                assert(r@.push(entry).map_values(g) =~= r@.map_values(g).push(g(entry)));
            }
            r.push(entry);
            k += 1;
        }
        proof {
            assert(sds.subrange(0, dn as int) =~= sds);
            assert(documents_upto(sblocks, i as int + 1) == documents_upto(sblocks, i as int)
                + sds.map_values(|d: XmlElement| spec_document(d)));
        }
        i += 1;
    }
    r
}

/// The form-data block: cover page and signature block required, summary
/// page optional (but its own required fields fatal when present), and
/// the document list always present, possibly empty.
pub open spec fn spec_form_data(node: XmlElement) -> Result<FormDataModel, ErrorModel> {
    match spec_first_child(node, "formData"@) {
        Some(fd) => match spec_cover_page(fd) {
            Ok(cover_page) => match spec_signature_block(fd) {
                Ok(signature_block) => match spec_summary_page(fd) {
                    Ok(summary_page) => Ok(
                        FormDataModel {
                            cover_page,
                            signature_block,
                            summary_page,
                            documents: Some(spec_documents(fd)),
                        },
                    ),
                    Err(e) => Err(e),
                },
                Err(e) => Err(e),
            },
            Err(e) => Err(e),
        },
        None => Err(ErrorModel::MissingElement("formData"@)),
    }
}

pub fn parse_form_data(node: &XmlElement) -> (r: Result<FormData, DecodeError>)
    ensures
        res_view(r) == spec_form_data(*node),
{
    let fd = match first_child(node, "formData") {
        Some(fd) => fd,
        None => {
            return Err(DecodeError::MissingElement("formData".to_owned()));
        },
    };
    let cover_page = match parse_cover_page(fd) {
        Ok(v) => v,
        Err(e) => {
            return Err(e);
        },
    };
    let signature_block = match parse_signature_block(fd) {
        Ok(v) => v,
        Err(e) => {
            return Err(e);
        },
    };
    let summary_page = match parse_summary_page(fd) {
        Ok(v) => v,
        Err(e) => {
            return Err(e);
        },
    };
    let documents = Some(parse_documents(fd));
    Ok(FormData { cover_page, signature_block, summary_page, documents })
}

/// A whole holdings report read from the root element: optional schema
/// version, then the header and form data, in that order.
pub open spec fn spec_form13f(root: XmlElement) -> Result<Form13FModel, ErrorModel> {
    match spec_header_data(root) {
        Ok(header_data) => match spec_form_data(root) {
            Ok(form_data) => Ok(
                Form13FModel {
                    schema_version: spec_child_text(root, "schemaVersion"@),
                    header_data,
                    form_data,
                },
            ),
            Err(e) => Err(e),
        },
        Err(e) => Err(e),
    }
}

/// Decodes a holdings report from XML text: malformed XML is fatal with
/// the parser's message, as is any missing required field, reported with
/// the missing tag's name.
pub fn parse_form13f(form: &str) -> (r: Result<Form13F, DecodeError>)
    ensures
        match r {
            Ok(x) => match parsed_xml(form@) {
                Ok(d) => spec_form13f(d.root) == Ok::<_, ErrorModel>(x@),
                Err(_) => false,
            },
            Err(e) => match parsed_xml(form@) {
                Ok(d) => spec_form13f(d.root) == Err::<Form13FModel, _>(e@),
                Err(m) => e@ == ErrorModel::MalformedXml(m),
            },
        },
{
    let doc = match parse_xml_document(form) {
        Ok(doc) => doc,
        Err(e) => {
            return Err(e);
        },
    };
    let schema_version = child_string(&doc.root, "schemaVersion");
    let header_data = match parse_header_data(&doc.root) {
        Ok(v) => v,
        Err(e) => {
            return Err(e);
        },
    };
    let form_data = match parse_form_data(&doc.root) {
        Ok(v) => v,
        Err(e) => {
            return Err(e);
        },
    };
    Ok(Form13F { schema_version, header_data, form_data })
}

/// The shares-or-principal-amount block of a table entry: amount and type
/// both required.
pub open spec fn spec_shares_or_print(node: XmlElement) -> Option<SharesOrPrintAmountModel> {
    match spec_first_child(node, "shrsOrPrnAmt"@) {
        Some(s) => match spec_child_i64(s, "sshPrnamt"@) {
            Some(amount) => match spec_child_text(s, "sshPrnamtType"@) {
                Some(shares_or_print_type) => Some(
                    SharesOrPrintAmountModel { amount, shares_or_print_type },
                ),
                None => None,
            },
            None => None,
        },
        None => None,
    }
}

pub fn parse_shares_or_print_amount(node: &XmlElement) -> (r: Option<SharesOrPrintAmount>)
    ensures
        opt_model(r) == spec_shares_or_print(*node),
{
    let s = match first_child(node, "shrsOrPrnAmt") {
        Some(s) => s,
        None => {
            return None;
        },
    };
    let amount = match child_i64(s, "sshPrnamt") {
        Some(v) => v,
        None => {
            return None;
        },
    };
    let shares_or_print_type = match child_string(s, "sshPrnamtType") {
        Some(v) => v,
        None => {
            return None;
        },
    };
    Some(SharesOrPrintAmount { amount, shares_or_print_type })
}

/// The voting-authority block of a table entry: all three counts required.
pub open spec fn spec_voting_authority(node: XmlElement) -> Option<VotingAuthorityModel> {
    match spec_first_child(node, "votingAuthority"@) {
        Some(v) => match spec_child_i32(v, "Sole"@) {
            Some(sole) => match spec_child_i32(v, "Shared"@) {
                Some(shared) => match spec_child_i32(v, "None"@) {
                    Some(none) => Some(VotingAuthorityModel { sole, shared, none }),
                    None => None,
                },
                None => None,
            },
            None => None,
        },
        None => None,
    }
}

pub fn parse_voting_authority(node: &XmlElement) -> (r: Option<VotingAuthority>)
    ensures
        opt_model(r) == spec_voting_authority(*node),
{
    let v = match first_child(node, "votingAuthority") {
        Some(v) => v,
        None => {
            return None;
        },
    };
    let sole = match child_i32(v, "Sole") {
        Some(x) => x,
        None => {
            return None;
        },
    };
    let shared = match child_i32(v, "Shared") {
        Some(x) => x,
        None => {
            return None;
        },
    };
    let none = match child_i32(v, "None") {
        Some(x) => x,
        None => {
            return None;
        },
    };
    Some(VotingAuthority { sole, shared, none })
}

/// One `infoTable` element as a table entry, or `None` when any required
/// field is missing — such an entry is skipped, never fatal.
pub open spec fn spec_table_entry(e: XmlElement) -> Option<TableEntryModel> {
    match spec_child_text(e, "nameOfIssuer"@) {
        Some(name_of_issuer) => match spec_child_text(e, "titleOfClass"@) {
            Some(title_of_class) => match spec_child_text(e, "cusip"@) {
                Some(cusip) => match spec_child_i64(e, "value"@) {
                    Some(value) => match spec_shares_or_print(e) {
                        Some(shares_or_print_amount) => match spec_child_text(
                            e,
                            "investmentDiscretion"@,
                        ) {
                            Some(investment_discretion) => match spec_voting_authority(e) {
                                Some(voting_authority) => Some(
                                    TableEntryModel {
                                        name_of_issuer,
                                        title_of_class,
                                        cusip,
                                        figi: spec_child_text(e, "figi"@),
                                        value,
                                        shares_or_print_amount,
                                        put_call: spec_child_text(e, "putCall"@),
                                        investment_discretion,
                                        other_manager: Some(spec_child_ints(e, "otherManager"@)),
                                        voting_authority,
                                    },
                                ),
                                None => None,
                            },
                            None => None,
                        },
                        None => None,
                    },
                    None => None,
                },
                None => None,
            },
            None => None,
        },
        None => None,
    }
}

pub fn parse_table_entry(e: &XmlElement) -> (r: Option<TableEntry>)
    ensures
        opt_model(r) == spec_table_entry(*e),
{
    let name_of_issuer = match child_string(e, "nameOfIssuer") {
        Some(v) => v,
        None => {
            return None;
        },
    };
    let title_of_class = match child_string(e, "titleOfClass") {
        Some(v) => v,
        None => {
            return None;
        },
    };
    let cusip = match child_string(e, "cusip") {
        Some(v) => v,
        None => {
            return None;
        },
    };
    let figi = child_string(e, "figi");
    let value = match child_i64(e, "value") {
        Some(v) => v,
        None => {
            return None;
        },
    };
    let shares_or_print_amount = match parse_shares_or_print_amount(e) {
        Some(v) => v,
        None => {
            return None;
        },
    };
    let put_call = child_string(e, "putCall");
    let investment_discretion = match child_string(e, "investmentDiscretion") {
        Some(v) => v,
        None => {
            return None;
        },
    };
    let other_manager = Some(child_ints(e, "otherManager"));
    let voting_authority = match parse_voting_authority(e) {
        Some(v) => v,
        None => {
            return None;
        },
    };
    Some(
        TableEntry {
            name_of_issuer,
            title_of_class,
            cusip,
            figi,
            value,
            shares_or_print_amount,
            put_call,
            investment_discretion,
            other_manager,
            voting_authority,
        },
    )
}

/// The entries among the first `n` `infoTable` elements that have every
/// required field, in document order.
pub open spec fn table_entries_upto(es: Seq<XmlElement>, n: int) -> Seq<TableEntryModel>
    decreases n,
{
    if n <= 0 {
        Seq::empty()
    } else {
        table_entries_upto(es, n - 1) + match spec_table_entry(es[n - 1]) {
            Some(t) => seq![t],
            None => Seq::empty(),
        }
    }
}

/// The whole holdings table of a root element.
pub open spec fn spec_form13f_table(root: XmlElement) -> Form13FTableModel {
    let es = spec_children_with_tag(root, "infoTable"@);
    Form13FTableModel { entries: table_entries_upto(es, es.len() as int) }
}

/// Decodes a holdings table from XML text: malformed XML is the only
/// error, reported with the table-specific prefix in front of the
/// parser's message; an entry missing a required field is skipped, never
/// fatal.
pub fn parse_form13f_table(table: &str) -> (r: Result<Form13FTable, DecodeError>)
    ensures
        match r {
            Ok(x) => match parsed_xml(table@) {
                Ok(d) => x@ == spec_form13f_table(d.root),
                Err(_) => false,
            },
            Err(e) => match parsed_xml(table@) {
                Ok(_) => false,
                Err(m) => e@ == ErrorModel::MalformedXml(
                    "Failed to parse Form 13F table: "@ + m,
                ),
            },
        },
{
    let doc = match parse_xml_document(table) {
        Ok(doc) => doc,
        Err(e) => match e {
            DecodeError::MalformedXml(m) => {
                let prefixed = String::from_str("Failed to parse Form 13F table: ").concat(
                    m.as_str(),
                );
                return Err(DecodeError::MalformedXml(prefixed));
            },
            DecodeError::MissingElement(t) => {
                // The parse boundary reports malformed XML alone.
                proof {
                    assert(false);
                }
                return Err(DecodeError::MissingElement(t));
            },
        },
    };
    let infos = children_with_tag(&doc.root, "infoTable");
    let ghost sinfos = spec_children_with_tag(doc.root, "infoTable"@);
    let mut entries: Vec<TableEntry> = Vec::new();
    let n = infos.len();
    let mut i: usize = 0;
    proof {
        assert(entries@.map_values(|t: TableEntry| t@) =~= table_entries_upto(sinfos, 0));
    }
    while i < n
        invariant
            n == infos@.len(),
            infos@.len() == sinfos.len(),
            forall|j: int| 0 <= j < n ==> *infos@[j] == sinfos[j],
            i <= n,
            entries@.map_values(|t: TableEntry| t@) == table_entries_upto(sinfos, i as int),
        decreases n - i,
    {
        match parse_table_entry(infos[i]) {
            Some(t) => {
                proof {
                    let g = |t: TableEntry| t@;
                    assert(entries@.push(t).map_values(g) =~= entries@.map_values(g).push(t@));
                    assert(table_entries_upto(sinfos, i as int + 1) =~= table_entries_upto(
                        sinfos,
                        i as int,
                    ).push(t@));
                }
                entries.push(t);
            },
            None => {
                proof {
                    assert(table_entries_upto(sinfos, i as int + 1) =~= table_entries_upto(
                        sinfos,
                        i as int,
                    ));
                }
            },
        }
        i += 1;
    }
    Ok(Form13FTable { entries })
}

} // verus!
