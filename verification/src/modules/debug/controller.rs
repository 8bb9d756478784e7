use vstd::prelude::*;

use crate::errors::{AppError, ErrorKind};
use crate::text::{concat2, lowercase, spec_lowercase, str_eq};

verus! {

broadcast use vstd::string::group_string_axioms;

/// The API of the debugging routes.
pub struct DebugApi;

/// The debugging routes do not exist in production.
pub fn pdf_route_gate(environment: &str) -> (r: Result<(), AppError>)
    ensures
        spec_lowercase(environment@) != "production"@ ==> r is Ok,
        spec_lowercase(environment@) == "production"@ ==> (r matches Err(e) && e@ == (
            ErrorKind::NotFound,
            "Rota não encontrada"@,
        )),
{
    let env = lowercase(environment);
    pdf_gate_for_lowercase(env.as_str())
}

/// The same gate, given the environment's name already in lower case.
pub fn pdf_gate_for_lowercase(lower_environment: &str) -> (r: Result<(), AppError>)
    ensures
        lower_environment@ != "production"@ ==> r is Ok,
        lower_environment@ == "production"@ ==> (r matches Err(e) && e@ == (
            ErrorKind::NotFound,
            "Rota não encontrada"@,
        )),
{
    if str_eq(lower_environment, "production") {
        return Err(AppError::with_text(ErrorKind::NotFound, "Rota não encontrada"));
    }
    Ok(())
}

/// The text of the sample PDF document.
pub open spec fn mock_pdf_text() -> Seq<char> {
    "%PDF-1.4\n\
1 0 obj\n\
<< /Type /Catalog /Pages 2 0 R >>\n\
endobj\n\
2 0 obj\n\
<< /Type /Pages /Kids [3 0 R] /Count 1 >>\n\
endobj\n\
3 0 obj\n\
<< /Type /Page /Parent 2 0 R /MediaBox [0 0 612 792] /Resources << >> /Contents 4 0 R >>\n\
endobj\n\
4 0 obj\n\
<< /Length 51 >>\n\
stream\n\
BT\n\
/F1 12 Tf\n\
72 712 Td\n\
(Mock PDF Content) Tj\n\
ET\n\
endstream\n\
endobj\n\
xref\n\
0 5\n\
0000000000 65535 f \n\
0000000009 00000 n \n\
0000000056 00000 n \n\
0000000111 00000 n \n\
0000000212 00000 n \n\
trailer\n\
<< /Size 5 /Root 1 0 R >>\n\
startxref\n\
311\n\
%%EOF"@
}

/// The bytes of the sample PDF document that the debugging routes serve.
pub fn get_mock_pdf_bytes() -> (r: Vec<u8>)
    ensures
        r@ == vstd::utf8::encode_utf8(mock_pdf_text()),
{
    let mock_pdf = "%PDF-1.4\n\
1 0 obj\n\
<< /Type /Catalog /Pages 2 0 R >>\n\
endobj\n\
2 0 obj\n\
<< /Type /Pages /Kids [3 0 R] /Count 1 >>\n\
endobj\n\
3 0 obj\n\
<< /Type /Page /Parent 2 0 R /MediaBox [0 0 612 792] /Resources << >> /Contents 4 0 R >>\n\
endobj\n\
4 0 obj\n\
<< /Length 51 >>\n\
stream\n\
BT\n\
/F1 12 Tf\n\
72 712 Td\n\
(Mock PDF Content) Tj\n\
ET\n\
endstream\n\
endobj\n\
xref\n\
0 5\n\
0000000000 65535 f \n\
0000000009 00000 n \n\
0000000056 00000 n \n\
0000000111 00000 n \n\
0000000212 00000 n \n\
trailer\n\
<< /Size 5 /Root 1 0 R >>\n\
startxref\n\
311\n\
%%EOF";
    let bytes = mock_pdf.as_bytes();
    let mut out: Vec<u8> = Vec::new();
    for i in 0..bytes.len()
        invariant
            out@ == bytes@.take(i as int),
    {
        out.push(bytes[i]);
        assert(bytes@.take(i + 1) =~= bytes@.take(i as int).push(bytes@[i as int]));
    }
    assert(bytes@.take(bytes@.len() as int) =~= bytes@);
    out
}

/// The `Content-Disposition` of the sample PDF: shown in place or offered
/// as a download.
pub fn pdf_disposition(inline: bool) -> (r: String)
    ensures
        inline ==> r@ == "inline; filename=\"test.pdf\""@,
        !inline ==> r@ == "attachment; filename=\"test.pdf\""@,
{
    if inline {
        String::from_str("inline; filename=\"test.pdf\"")
    } else {
        String::from_str("attachment; filename=\"test.pdf\"")
    }
}

/// The server error for a response that could not be built.
pub fn response_build_error(detail: &str) -> (r: AppError)
    ensures
        r@ == (ErrorKind::Internal, "Failed to build response: "@ + detail@),
{
    AppError::Internal(concat2("Failed to build response: ", detail))
}

} // verus!
