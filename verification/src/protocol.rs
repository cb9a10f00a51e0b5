//! The 1-out-of-2 oblivious transfer exchange.
//!
//! The sender samples a secret scalar `a` and publishes `A = g^a`.  The
//! receiver samples a secret scalar `b` and publishes `B = g^b` for choice
//! 0 or `B = g^b + A` for choice 1.  The sender derives the keys of the
//! two points `B^a` and `(B - A)^a` and encrypts one message under each;
//! the receiver derives the key of `A^b` and decrypts both ciphertexts
//! with it.  Exactly the chosen ciphertext decrypts to its plaintext,
//! because the receiver's point `A^b` equals `B^a` for choice 0 and
//! `(B - A)^a` for choice 1, while the other encryption point stands in no
//! discrete-log relation the receiver knows.

use vstd::prelude::*;

use crate::cipher::MAX_MESSAGE_LEN;
use crate::cipher::decrypt;
use crate::cipher::encrypt_once;
use crate::cipher::lemma_cipher_involution;
use crate::cipher::stream_cipher;
use crate::group::Point;
use crate::group::Scalar;
use crate::group::add_enc;
use crate::group::base_mul;
use crate::group::base_mul_enc;
use crate::group::is_point_enc;
use crate::group::is_scalar_enc;
use crate::group::mul_enc;
use crate::group::point_add;
use crate::group::point_mul;
use crate::group::point_sub;
use crate::group::sample_scalar;
use crate::group::sub_enc;
use crate::kdf::derive_key;
use crate::kdf::kdf_spec;

verus! {

/// The sender's side of one protocol run: the secret scalar `a`, the
/// public point `A = g^a`, and the two plaintext messages.  The state is
/// consumed by `derive_and_encrypt`, so each run encrypts exactly once.
pub struct Sender {
    a: Scalar,
    point_a: Point,
    message0: Vec<u8>,
    message1: Vec<u8>,
}

impl Sender {
    /// The encoding of the secret scalar `a`.
    pub closed spec fn secret_enc(self) -> Seq<u8> {
        self.a@
    }

    /// The encoding of the public point `A`.
    pub closed spec fn point_enc(self) -> Seq<u8> {
        self.point_a@
    }

    /// The first message, still plaintext.
    pub closed spec fn msg0(self) -> Seq<u8> {
        self.message0@
    }

    /// The second message, still plaintext.
    pub closed spec fn msg1(self) -> Seq<u8> {
        self.message1@
    }

    /// Well-formedness: the secret scalar and the public point are valid
    /// canonical encodings and `A = g^a`.
    pub closed spec fn wf(self) -> bool {
        &&& is_scalar_enc(self.a@)
        &&& is_point_enc(self.point_a@)
        &&& self.point_a@ == base_mul_enc(self.a@)
    }

    /// Creates a sender for one protocol run: samples the secret scalar
    /// `a` uniformly, computes `A = g^a`, and stores the two plaintext
    /// messages.
    pub fn new(rng: &mut rand::rngs::StdRng, message0: Vec<u8>, message1: Vec<u8>) -> (r: Sender)
        ensures
            r.wf(),
            r.msg0() == message0@,
            r.msg1() == message1@,
            r.point_enc() == base_mul_enc(r.secret_enc()),
            is_point_enc(r.point_enc()),
    {
        let a = sample_scalar(rng);
        let point_a = base_mul(&a);
        Sender { a, point_a, message0, message1 }
    }

    /// The public point `A` that the sender opens the exchange with.
    pub fn public_point(&self) -> (r: Point)
        ensures
            r@ == self.point_enc(),
    {
        self.point_a
    }

    /// Consumes the sender on receipt of the peer point `B`: derives the
    /// two candidate points `B^a` and `(B - A)^a`, derives a key from
    /// each, and returns the two messages encrypted in place under those
    /// keys, in order.
    pub fn derive_and_encrypt(self, peer: &Point) -> (r: (Vec<u8>, Vec<u8>))
        requires
            self.wf(),
            is_point_enc(peer@),
            self.msg0().len() <= MAX_MESSAGE_LEN,
            self.msg1().len() <= MAX_MESSAGE_LEN,
        ensures
            r.0@ == stream_cipher(kdf_spec(mul_enc(peer@, self.secret_enc())), self.msg0()),
            r.1@ == stream_cipher(
                kdf_spec(mul_enc(sub_enc(peer@, self.point_enc()), self.secret_enc())),
                self.msg1(),
            ),
    {
        let Sender { a, point_a, mut message0, mut message1 } = self;
        let k0_point = point_mul(peer, &a);
        let diff = point_sub(peer, &point_a);
        let k1_point = point_mul(&diff, &a);
        let k0 = derive_key(&k0_point);
        let k1 = derive_key(&k1_point);
        encrypt_once(&k0, &mut message0);
        encrypt_once(&k1, &mut message1);
        (message0, message1)
    }
}

/// The receiver's side of one protocol run: the secret scalar `b`, the
/// public point `B`, and the sender's point `A`.
pub struct Receiver {
    b: Scalar,
    point_b: Point,
    point_a: Point,
}

impl Receiver {
    /// The encoding of the secret scalar `b`.
    pub closed spec fn secret_enc(self) -> Seq<u8> {
        self.b@
    }

    /// The encoding of the public point `B`.
    pub closed spec fn point_enc(self) -> Seq<u8> {
        self.point_b@
    }

    /// The encoding of the sender's point `A`.
    pub closed spec fn peer_enc(self) -> Seq<u8> {
        self.point_a@
    }

    /// Well-formedness: all stored encodings are valid canonical
    /// encodings.
    pub closed spec fn wf(self) -> bool {
        &&& is_scalar_enc(self.b@)
        &&& is_point_enc(self.point_a@)
        &&& is_point_enc(self.point_b@)
    }

    /// Creates a receiver for one protocol run, given the sender's point
    /// `A` and the private choice bit: samples the secret scalar `b`
    /// uniformly and computes `B = g^b` for choice 0 or `B = g^b + A` for
    /// choice 1.  The quantified clause restates, of this receiver's
    /// secret, the group law that scalar multiplications of the generator
    /// commute; the correctness argument of the whole exchange rests on
    /// it.
    pub fn new(rng: &mut rand::rngs::StdRng, peer: &Point, choice: bool) -> (r: Receiver)
        requires
            is_point_enc(peer@),
        ensures
            r.wf(),
            r.peer_enc() == peer@,
            is_point_enc(r.point_enc()),
            r.point_enc() == if choice {
                add_enc(base_mul_enc(r.secret_enc()), peer@)
            } else {
                base_mul_enc(r.secret_enc())
            },
            choice ==> sub_enc(r.point_enc(), peer@) == base_mul_enc(r.secret_enc()),
            forall|t: Seq<u8>|
                is_scalar_enc(t) ==> (#[trigger] mul_enc(base_mul_enc(r.secret_enc()), t))
                    == mul_enc(base_mul_enc(t), r.secret_enc()),
    {
        let b = sample_scalar(rng);
        let gb = base_mul(&b);
        proof {
            assert forall|t: Seq<u8>| is_scalar_enc(t) implies (#[trigger] mul_enc(
                base_mul_enc(b@),
                t,
            )) == mul_enc(base_mul_enc(t), b@) by {
                assert(mul_enc(gb@, t) == mul_enc(base_mul_enc(t), b@));
            }
        }
        let point_b = if choice {
            point_add(&gb, peer)
        } else {
            gb
        };
        Receiver { b, point_b, point_a: *peer }
    }

    /// The public point `B` that the receiver answers with.
    pub fn public_point(&self) -> (r: Point)
        ensures
            r@ == self.point_enc(),
    {
        self.point_b
    }

    /// Decrypts both ciphertexts with the one key the receiver can
    /// derive, from the point `A^b`.  Exactly the guess at the chosen
    /// index is the corresponding plaintext; the other guess is
    /// meaningless bytes, and nothing but prior knowledge of the choice
    /// tells the two apart.
    pub fn decrypt_both(&self, ciphertext0: Vec<u8>, ciphertext1: Vec<u8>) -> (r: (
        Vec<u8>,
        Vec<u8>,
    ))
        requires
            self.wf(),
            ciphertext0@.len() <= MAX_MESSAGE_LEN,
            ciphertext1@.len() <= MAX_MESSAGE_LEN,
        ensures
            r.0@ == stream_cipher(
                kdf_spec(mul_enc(self.peer_enc(), self.secret_enc())),
                ciphertext0@,
            ),
            r.1@ == stream_cipher(
                kdf_spec(mul_enc(self.peer_enc(), self.secret_enc())),
                ciphertext1@,
            ),
    {
        let decrypt_point = point_mul(&self.point_a, &self.b);
        let decrypt_key = derive_key(&decrypt_point);
        let mut guess0 = ciphertext0;
        let mut guess1 = ciphertext1;
        decrypt(&decrypt_key, &mut guess0);
        decrypt(&decrypt_key, &mut guess1);
        (guess0, guess1)
    }
}

/// What a full run with secret scalar encodings `a_enc` (sender) and
/// `b_enc` (receiver) hands the receiver: with `A = g^a` and with
/// `B = g^b` (choice 0) or `B = g^b + A` (choice 1), each guess is the
/// decryption, under the receiver's one key from `A^b`, of the message
/// encrypted by the sender under the key of `B^a` (index 0) or of
/// `(B - A)^a` (index 1).
pub open spec fn run_guesses(
    guess0: Seq<u8>,
    guess1: Seq<u8>,
    message0: Seq<u8>,
    message1: Seq<u8>,
    a_enc: Seq<u8>,
    b_enc: Seq<u8>,
    choice: bool,
) -> bool {
    let point_a = base_mul_enc(a_enc);
    let point_b = if choice {
        add_enc(base_mul_enc(b_enc), point_a)
    } else {
        base_mul_enc(b_enc)
    };
    let receiver_key = kdf_spec(mul_enc(point_a, b_enc));
    let key0 = kdf_spec(mul_enc(point_b, a_enc));
    let key1 = kdf_spec(mul_enc(sub_enc(point_b, point_a), a_enc));
    &&& guess0 == stream_cipher(receiver_key, stream_cipher(key0, message0))
    &&& guess1 == stream_cipher(receiver_key, stream_cipher(key1, message1))
}

/// Runs one full exchange in a single call stack: the sender opens with
/// `A`, the receiver answers with `B` for its choice bit, the sender
/// encrypts both messages, and the receiver decrypts both ciphertexts.
/// Correctness: for choice 0 the first guess is `message0`, for choice 1
/// the second guess is `message1`; the other guess is meaningless bytes.
pub fn oblivious_transfer(
    rng: &mut rand::rngs::StdRng,
    message0: Vec<u8>,
    message1: Vec<u8>,
    choice: bool,
) -> (r: (Vec<u8>, Vec<u8>))
    requires
        message0@.len() <= MAX_MESSAGE_LEN,
        message1@.len() <= MAX_MESSAGE_LEN,
    ensures
        r.0@.len() == message0@.len(),
        r.1@.len() == message1@.len(),
        !choice ==> r.0@ == message0@,
        choice ==> r.1@ == message1@,
        exists|a_enc: Seq<u8>, b_enc: Seq<u8>|
            is_scalar_enc(a_enc) && is_scalar_enc(b_enc) && #[trigger] run_guesses(
                r.0@,
                r.1@,
                message0@,
                message1@,
                a_enc,
                b_enc,
                choice,
            ),
{
    let ghost m0 = message0@;
    let ghost m1 = message1@;
    let sender = Sender::new(rng, message0, message1);
    let point_a = sender.public_point();
    let receiver = Receiver::new(rng, &point_a, choice);
    let point_b = receiver.public_point();
    let ghost a = sender.secret_enc();
    let ghost b = receiver.secret_enc();
    let (ciphertext0, ciphertext1) = sender.derive_and_encrypt(&point_b);
    proof {
        let shared = mul_enc(base_mul_enc(a), b);
        assert(mul_enc(point_a@, b) == shared);
        if !choice {
            assert(mul_enc(point_b@, a) == shared);
        } else {
            assert(sub_enc(point_b@, point_a@) == base_mul_enc(b));
            assert(mul_enc(sub_enc(point_b@, point_a@), a) == shared);
        }
    }
    let (guess0, guess1) = receiver.decrypt_both(ciphertext0, ciphertext1);
    proof {
        let key = kdf_spec(mul_enc(base_mul_enc(a), b));
        if !choice {
            assert(guess0@ == stream_cipher(key, stream_cipher(key, m0)));
            lemma_cipher_involution(key, m0);
        } else {
            assert(guess1@ == stream_cipher(key, stream_cipher(key, m1)));
            lemma_cipher_involution(key, m1);
        }
        assert(run_guesses(guess0@, guess1@, m0, m1, a, b, choice));
    }
    (guess0, guess1)
}

} // verus!
