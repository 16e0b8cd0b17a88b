use vstd::prelude::*;
use crate::domain::error::ErrorCause;

verus! {

/// The algorithm of a new hash, as a PHC text names it.
pub const HASH_ALGORITHM: &'static str = "argon2id";

/// The version of the algorithm of a new hash: 0x13.
pub const HASH_VERSION: u32 = 19;

/// Memory cost of a new hash, in KiB.
pub const HASH_MEMORY_COST: u32 = 1500;

/// Number of passes over the memory for a new hash.
pub const HASH_TIME_COST: u32 = 2;

/// Number of lanes for a new hash.
pub const HASH_PARALLELISM: u32 = 1;

/// The greatest number of lanes Argon2 works with.
pub const MAX_PARALLELISM: u32 = 0xFF_FFFF;

/// The parameters of a hash as its text lists them: the name of each and,
/// where its value is a decimal number that fits 32 bits, that number.
pub type Params = Seq<(Seq<char>, Option<u32>)>;

/// What stands in a PHC text before the salt: the algorithm, the version if
/// one is written, and the parameters.
pub type Head = (Seq<char>, Option<u32>, Params);

/// The head of a PHC text as read from it.
pub struct PhcHead {
    pub algorithm: String,
    pub version: Option<u32>,
    pub params: Vec<(String, Option<u32>)>,
}

/// The parameters of a list, each name as its text.
pub open spec fn param_views(params: Seq<(String, Option<u32>)>) -> Params {
    Seq::new(params.len(), |i: int| (params[i].0@, params[i].1))
}

impl View for PhcHead {
    type V = Head;

    open spec fn view(&self) -> Head {
        (self.algorithm@, self.version, param_views(self.params@))
    }
}

/// The head that `password-hash` reads from `hash`. `None` where `hash` is
/// no text in PHC format.
pub uninterp spec fn phc_head(hash: Seq<char>) -> Option<Head>;

/// Whether Argon2 accepts `secret` for `hash`: hashing `secret` with the
/// algorithm, version, parameters and salt written in `hash` gives the digest
/// written in it.
pub uninterp spec fn argon2_accepts(hash: Seq<char>, secret: Seq<char>) -> bool;

/// The parameters of a hash made with these costs: the three of them, in
/// this order, and nothing else.
pub open spec fn cost_params(m_cost: u32, t_cost: u32, p_cost: u32) -> Params {
    seq![("m"@, Some(m_cost)), ("t"@, Some(t_cost)), ("p"@, Some(p_cost))]
}

/// Whether `hash` is a hash as this library makes them: Argon2id in version
/// 0x13 with the library's three costs.
pub open spec fn is_library_hash(hash: Seq<char>) -> bool {
    phc_head(hash) == Some(
        (
            HASH_ALGORITHM@,
            Some(HASH_VERSION),
            cost_params(HASH_MEMORY_COST, HASH_TIME_COST, HASH_PARALLELISM),
        ),
    )
}

/// The value of the last parameter named `p`, which is the one Argon2 goes
/// by: `None` where no parameter has that name, `Some(None)` where the last
/// that has it is no decimal number.
pub open spec fn last_parallelism(params: Params) -> Option<Option<u32>>
    decreases params.len(),
{
    if params.len() == 0 {
        None
    } else if params.last().0 == "p"@ {
        Some(params.last().1)
    } else {
        last_parallelism(params.drop_last())
    }
}

/// Whether the number of lanes that the parameters ask for is one Argon2
/// works with. Parameters that ask for none, or for no number, pass: Argon2
/// takes its default for the first and refuses the second itself.
pub open spec fn parallelism_fits(params: Params) -> bool {
    match last_parallelism(params) {
        Some(Some(p_cost)) => p_cost <= MAX_PARALLELISM,
        _ => true,
    }
}

/// Whether `secret` verifies against `hash`: `hash` is a text in PHC format
/// that asks for no more lanes than Argon2 works with, and Argon2 accepts
/// `secret` for it.
pub open spec fn hash_accepts(hash: Seq<char>, secret: Seq<char>) -> bool {
    &&& phc_head(hash) matches Some(head)
    &&& parallelism_fits(head.2)
    &&& argon2_accepts(hash, secret)
}

/// Calls `argon2::Argon2::hash_password` for Argon2id, version 0x13, with
/// the given costs and a salt from `SaltString::generate` on the thread's
/// random generator, and prints the hash in PHC format.
///
/// Trusted: a hash that comes back is one that `verify_password` of
/// `Argon2::default()` accepts for the same secret, since the text carries
/// all that went into the digest; and read back, the text names Argon2id,
/// version 19 and the three costs as its only parameters, in the order `m`,
/// `t`, `p`. The salt is random, so the text itself is not named; nor is
/// success promised.
///
/// `Params::new` multiplies `p_cost` by eight before it holds it to its
/// maximum, which overflows from 2^29 on; the precondition leaves such costs
/// out. Where the system has no random source to seed the generator from,
/// or not the memory that `m_cost` asks for, the call does not return.
#[verifier::external_body]
fn argon2id_hash(secret: &String, m_cost: u32, t_cost: u32, p_cost: u32) -> (r: Result<
    String,
    String,
>)
    requires
        p_cost <= MAX_PARALLELISM,
    ensures
        r matches Ok(hash) ==> argon2_accepts(hash@, secret@),
        r matches Ok(hash) ==> phc_head(hash@) == Some(
            (HASH_ALGORITHM@, Some(HASH_VERSION), cost_params(m_cost, t_cost, p_cost)),
        ),
{
    let salt = argon2::password_hash::SaltString::generate(&mut rand::thread_rng());
    let params = argon2::Params::new(m_cost, t_cost, p_cost, None).map_err(|e| e.to_string())?;
    let hasher = argon2::Argon2::new(argon2::Algorithm::Argon2id, argon2::Version::V0x13, params);
    argon2::PasswordHasher::hash_password(&hasher, secret.as_bytes(), &salt)
        .map(|hash| hash.to_string())
        .map_err(|e| e.to_string())
}

/// Calls `argon2::PasswordHash::new` on `hash` and lists what it read: the
/// algorithm (`Ident::as_str`), the version, and each parameter with its
/// name and its value as `Value::decimal` gives it.
///
/// Trusted: what is read depends on the text alone.
#[verifier::external_body]
fn read_head(hash: &String) -> (head: Option<PhcHead>)
    ensures
        match head {
            Some(read) => phc_head(hash@) == Some(read@),
            None => phc_head(hash@) is None,
        },
{
    let parsed = argon2::PasswordHash::new(hash).ok()?;
    let params = parsed
        .params
        .iter()
        .map(|(name, value)| (name.as_str().to_owned(), value.decimal().ok()))
        .collect();
    Some(PhcHead { algorithm: parsed.algorithm.as_str().to_owned(), version: parsed.version, params })
}

/// Calls `argon2::PasswordHash::new` on `hash` and then
/// `argon2::Argon2::default().verify_password` with the bytes of
/// `candidate`.
///
/// Trusted: the answer depends on the two texts alone.
///
/// `verify_password` builds its parameters from those of the hash, the last
/// of a name counting, and `Params::new` multiplies the number of lanes by
/// eight before it holds it to its maximum, which overflows from 2^29 on.
/// The precondition leaves out the hashes that ask for more lanes than the
/// maximum; Argon2 would refuse them. Where the system has not the memory
/// that the hash asks for, the call does not return.
#[verifier::external_body]
fn argon2_verify(hash: &String, candidate: &String) -> (ok: bool)
    requires
        phc_head(hash@) matches Some(head) && parallelism_fits(head.2),
    ensures
        ok == argon2_accepts(hash@, candidate@),
{
    let verifier = argon2::Argon2::default();
    match argon2::PasswordHash::new(hash) {
        Ok(parsed) => argon2::PasswordVerifier::verify_password(
            &verifier,
            candidate.as_bytes(),
            &parsed,
        ).is_ok(),
        Err(_) => false,
    }
}

/// Whether the parameters ask for a number of lanes that Argon2 works with.
fn check_parallelism(params: &Vec<(String, Option<u32>)>) -> (fits: bool)
    ensures
        fits == parallelism_fits(param_views(params@)),
{
    let name = String::from_str("p");
    let ghost all = param_views(params@);
    let mut i: usize = params.len();
    assert(all.subrange(0, i as int) =~= all);
    while i > 0
        invariant
            i <= params@.len(),
            name@ == "p"@,
            all == param_views(params@),
            last_parallelism(all) == last_parallelism(all.subrange(0, i as int)),
        decreases i,
    {
        i = i - 1;
        let ghost front = all.subrange(0, i + 1);
        assert(front.last() == all[i as int]);
        assert(front.drop_last() =~= all.subrange(0, i as int));
        if params[i].0 == name {
            return match params[i].1 {
                Some(p_cost) => p_cost <= MAX_PARALLELISM,
                None => true,
            };
        }
    }
    true
}

/// The one way verification fails: a malformed hash and a wrong secret are
/// not told apart.
#[derive(Debug, Clone, Copy, PartialEq, Eq, Structural)]
pub struct VerifyError;

/// What [`verify_password_hash`] answers.
pub open spec fn verification(expected_password_hash: Seq<char>, password_candidate: Seq<char>) -> Result<
    (),
    VerifyError,
> {
    if hash_accepts(expected_password_hash, password_candidate) {
        Ok(())
    } else {
        Err(VerifyError)
    }
}

/// Checks `password_candidate` against a stored hash. A text that is no
/// hash, or one that asks for more lanes than Argon2 works with, verifies
/// nothing.
pub fn verify_password_hash(expected_password_hash: &String, password_candidate: &String) -> (r:
    Result<(), VerifyError>)
    ensures
        r == verification(expected_password_hash@, password_candidate@),
{
    let head = match read_head(expected_password_hash) {
        Some(head) => head,
        None => {
            return Err(VerifyError);
        },
    };
    if !check_parallelism(&head.params) {
        return Err(VerifyError);
    }
    if argon2_verify(expected_password_hash, password_candidate) {
        Ok(())
    } else {
        Err(VerifyError)
    }
}

/// Derives a salted Argon2id hash of `password` with the library's costs.
/// Each call draws a fresh salt, so two hashes of one password differ; every
/// hash verifies against the password it was made from.
pub fn compute_password_hash(password: &String) -> (r: Result<String, ErrorCause>)
    ensures
        r matches Ok(hash) ==> is_library_hash(hash@),
        r matches Ok(hash) ==> verification(hash@, password@) is Ok,
        r matches Err(cause) ==> cause.source is None,
{
    match argon2id_hash(password, HASH_MEMORY_COST, HASH_TIME_COST, HASH_PARALLELISM) {
        Ok(hash) => {
            proof {
                lemma_library_costs_fit();
            }
            Ok(hash)
        },
        Err(message) => Err(ErrorCause::new(message)),
    }
}

/// The parameters of the library's own hashes ask for a number of lanes that
/// Argon2 works with.
pub proof fn lemma_library_costs_fit()
    ensures
        parallelism_fits(cost_params(HASH_MEMORY_COST, HASH_TIME_COST, HASH_PARALLELISM)),
{
    let params = cost_params(HASH_MEMORY_COST, HASH_TIME_COST, HASH_PARALLELISM);
    assert(params.last() == ("p"@, Some(HASH_PARALLELISM)));
}

} // verus!
