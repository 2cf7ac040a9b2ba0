use vstd::prelude::*;

verus! {

/// A generation job as stored. Timestamps are microseconds since the Unix epoch.
#[derive(Debug)]
pub struct JobRecord {
    pub id: u128,
    pub job_type: String,
    pub model: String,
    pub prompt: String,
    pub status: String,
    pub result_url: Option<String>,
    pub error_message: Option<String>,
    pub created_at: i64,
    pub updated_at: i64,
}

/// A row of the jobs table, column by column as selected:
/// id, job_type, model, prompt, status, result_url, error_message, created_at, updated_at.
pub type JobRow = (u128, String, String, String, String, Option<String>, Option<String>, i64, i64);

/// The record that a selected row describes.
pub fn row_to_job(row: JobRow) -> (job: JobRecord)
    ensures
        job.id == row.0,
        job.job_type == row.1,
        job.model == row.2,
        job.prompt == row.3,
        job.status == row.4,
        job.result_url == row.5,
        job.error_message == row.6,
        job.created_at == row.7,
        job.updated_at == row.8,
{
    JobRecord {
        id: row.0,
        job_type: row.1,
        model: row.2,
        prompt: row.3,
        status: row.4,
        result_url: row.5,
        error_message: row.6,
        created_at: row.7,
        updated_at: row.8,
    }
}

/// Lower-case hexadecimal digit of `v` (`0 <= v < 16`).
pub open spec fn hex_digit(v: int) -> char {
    seq!['0', '1', '2', '3', '4', '5', '6', '7', '8', '9', 'a', 'b', 'c', 'd', 'e', 'f'][v]
}

/// The `j`-th hexadecimal digit (from the most significant, `0 <= j < 32`) of `id`.
pub open spec fn uuid_nibble(id: u128, j: int) -> int {
    ((id >> ((124 - 4 * j) as u128)) & 0xf) as int
}

/// Number of hyphens before position `i` of the hyphenated form.
pub open spec fn hyphens_before(i: int) -> int {
    if i > 23 {
        4
    } else if i > 18 {
        3
    } else if i > 13 {
        2
    } else if i > 8 {
        1
    } else {
        0
    }
}

/// The hyphenated lower-case form of a UUID (8-4-4-4-12 hexadecimal digits,
/// most significant first), as the `uuid` crate displays it.
pub open spec fn spec_uuid_text(id: u128) -> Seq<char> {
    Seq::new(
        36,
        |i: int|
            if i == 8 || i == 13 || i == 18 || i == 23 {
                '-'
            } else {
                hex_digit(uuid_nibble(id, i - hyphens_before(i)))
            },
    )
}

/// Calls `uuid::Uuid::from_u128(id).to_string()`. Claimed, as the crate
/// documents and its formatter writes, that the text is the hyphenated
/// lower-case form of the 128-bit value, most significant digit first.
#[verifier::external_body]
fn uuid_text(id: u128) -> (s: String)
    ensures
        s@ == spec_uuid_text(id),
{
    uuid::Uuid::from_u128(id).to_string()
}

/// Storage key of the image of job `job_id`.
pub open spec fn spec_job_image_key(job_id: u128) -> Seq<char> {
    "jobs/"@ + spec_uuid_text(job_id) + ".png"@
}

/// Storage key under which the image of job `job_id` is uploaded.
pub fn job_image_key(job_id: u128) -> (key: String)
    ensures
        key@ == spec_job_image_key(job_id),
{
    String::from_str("jobs/").concat(uuid_text(job_id).as_str()).concat(".png")
}

/// Distinct digit values have distinct hexadecimal digits.
proof fn lemma_hex_digit_injective(a: int, b: int)
    requires
        0 <= a < 16,
        0 <= b < 16,
        hex_digit(a) == hex_digit(b),
    ensures
        a == b,
{
    let digits = seq!['0', '1', '2', '3', '4', '5', '6', '7', '8', '9', 'a', 'b', 'c', 'd', 'e', 'f'];
    assert(forall|i: int, j: int| 0 <= i < 16 && 0 <= j < 16 && i != j ==> digits[i] != digits[j]);
}

/// Two ids with the same hexadecimal digits are the same id.
proof fn lemma_nibbles_determine_id(a: u128, b: u128)
    requires
        forall|j: int| 0 <= j < 32 ==> uuid_nibble(a, j) == uuid_nibble(b, j),
    ensures
        a == b,
{
    assert(forall|x: u128, s: u128| (x >> s) & 0xf <= 0xf) by (bit_vector);
    let n = |x: u128, j: int| uuid_nibble(x, j);
    assert(n(a, 0) == n(b, 0) && n(a, 1) == n(b, 1) && n(a, 2) == n(b, 2) && n(a, 3) == n(b, 3));
    assert(n(a, 4) == n(b, 4) && n(a, 5) == n(b, 5) && n(a, 6) == n(b, 6) && n(a, 7) == n(b, 7));
    assert(n(a, 8) == n(b, 8) && n(a, 9) == n(b, 9) && n(a, 10) == n(b, 10) && n(a, 11) == n(b, 11));
    assert(n(a, 12) == n(b, 12) && n(a, 13) == n(b, 13) && n(a, 14) == n(b, 14) && n(a, 15) == n(b, 15));
    assert(n(a, 16) == n(b, 16) && n(a, 17) == n(b, 17) && n(a, 18) == n(b, 18) && n(a, 19) == n(b, 19));
    assert(n(a, 20) == n(b, 20) && n(a, 21) == n(b, 21) && n(a, 22) == n(b, 22) && n(a, 23) == n(b, 23));
    assert(n(a, 24) == n(b, 24) && n(a, 25) == n(b, 25) && n(a, 26) == n(b, 26) && n(a, 27) == n(b, 27));
    assert(n(a, 28) == n(b, 28) && n(a, 29) == n(b, 29) && n(a, 30) == n(b, 30) && n(a, 31) == n(b, 31));
    assert(a == b) by (bit_vector)
        requires
            (a >> 124u128) & 0xf == (b >> 124u128) & 0xf,
            (a >> 120u128) & 0xf == (b >> 120u128) & 0xf,
            (a >> 116u128) & 0xf == (b >> 116u128) & 0xf,
            (a >> 112u128) & 0xf == (b >> 112u128) & 0xf,
            (a >> 108u128) & 0xf == (b >> 108u128) & 0xf,
            (a >> 104u128) & 0xf == (b >> 104u128) & 0xf,
            (a >> 100u128) & 0xf == (b >> 100u128) & 0xf,
            (a >> 96u128) & 0xf == (b >> 96u128) & 0xf,
            (a >> 92u128) & 0xf == (b >> 92u128) & 0xf,
            (a >> 88u128) & 0xf == (b >> 88u128) & 0xf,
            (a >> 84u128) & 0xf == (b >> 84u128) & 0xf,
            (a >> 80u128) & 0xf == (b >> 80u128) & 0xf,
            (a >> 76u128) & 0xf == (b >> 76u128) & 0xf,
            (a >> 72u128) & 0xf == (b >> 72u128) & 0xf,
            (a >> 68u128) & 0xf == (b >> 68u128) & 0xf,
            (a >> 64u128) & 0xf == (b >> 64u128) & 0xf,
            (a >> 60u128) & 0xf == (b >> 60u128) & 0xf,
            (a >> 56u128) & 0xf == (b >> 56u128) & 0xf,
            (a >> 52u128) & 0xf == (b >> 52u128) & 0xf,
            (a >> 48u128) & 0xf == (b >> 48u128) & 0xf,
            (a >> 44u128) & 0xf == (b >> 44u128) & 0xf,
            (a >> 40u128) & 0xf == (b >> 40u128) & 0xf,
            (a >> 36u128) & 0xf == (b >> 36u128) & 0xf,
            (a >> 32u128) & 0xf == (b >> 32u128) & 0xf,
            (a >> 28u128) & 0xf == (b >> 28u128) & 0xf,
            (a >> 24u128) & 0xf == (b >> 24u128) & 0xf,
            (a >> 20u128) & 0xf == (b >> 20u128) & 0xf,
            (a >> 16u128) & 0xf == (b >> 16u128) & 0xf,
            (a >> 12u128) & 0xf == (b >> 12u128) & 0xf,
            (a >> 8u128) & 0xf == (b >> 8u128) & 0xf,
            (a >> 4u128) & 0xf == (b >> 4u128) & 0xf,
            (a >> 0u128) & 0xf == (b >> 0u128) & 0xf,
    ;
}

/// Distinct jobs store their images under distinct keys, so no job's image
/// overwrites another's.
pub proof fn lemma_image_keys_distinct(a: u128, b: u128)
    requires
        a != b,
    ensures
        spec_job_image_key(a) != spec_job_image_key(b),
{
    if spec_job_image_key(a) == spec_job_image_key(b) {
        let p = "jobs/"@;
        let ta = spec_uuid_text(a);
        let tb = spec_uuid_text(b);
        assert((p + ta + ".png"@).subrange(p.len() as int, p.len() + 36int) =~= ta);
        assert((p + tb + ".png"@).subrange(p.len() as int, p.len() + 36int) =~= tb);
        assert forall|j: int| 0 <= j < 32 implies uuid_nibble(a, j) == uuid_nibble(b, j) by {
            assert(forall|x: u128, s: u128| (x >> s) & 0xf <= 0xf) by (bit_vector);
            let i: int = if j < 8 {
                j
            } else if j < 12 {
                j + 1
            } else if j < 16 {
                j + 2
            } else if j < 20 {
                j + 3
            } else {
                j + 4
            };
            assert(ta[i] == tb[i]);
            lemma_hex_digit_injective(uuid_nibble(a, j), uuid_nibble(b, j));
        }
        lemma_nibbles_determine_id(a, b);
    }
}

} // verus!
