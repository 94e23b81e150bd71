//! The cascading parser: which decoders a parse consults, in what order, and
//! what it makes of their answers.

use crate::api::{X509Iterator, X509IteratorError};
use crate::format::X509Type;
use crate::result::{X509ClientError, X509ClientResult};
use core::marker::PhantomData;
use vstd::prelude::*;

verus! {

/// Why a parse failed, with the cause as the decoder gave it.
#[derive(Debug)]
pub enum ParseFailure<E> {
    /// A strict parse was asked for with nothing known of the format.
    UnknownFormatNotPermitted,
    /// The one decoder that a strict parse consulted rejected the bytes.
    DecodeFailure(E),
    /// Every decoder that a relaxed parse consulted rejected the bytes.
    NoFormatMatched,
}

/// The decoders that a parse consults, in the order in which it consults
/// them, each named by the format it decodes.
///
/// A strict parse consults the hinted decoder and no other, and none at all
/// where the hint is `Unknown`. A relaxed parse consults the hinted decoder
/// first and then the others, single certificate before bundle before chain.
pub open spec fn decoder_order(strict: bool, hint: X509Type) -> Seq<X509Type> {
    match hint {
        X509Type::Cer => if strict {
            seq![X509Type::Cer]
        } else {
            seq![X509Type::Cer, X509Type::Pkcs7, X509Type::Pem]
        },
        X509Type::Pkcs7 => if strict {
            seq![X509Type::Pkcs7]
        } else {
            seq![X509Type::Pkcs7, X509Type::Cer, X509Type::Pem]
        },
        X509Type::Pem => if strict {
            seq![X509Type::Pem]
        } else {
            seq![X509Type::Pem, X509Type::Cer, X509Type::Pkcs7]
        },
        X509Type::Unknown => if strict {
            seq![]
        } else {
            seq![X509Type::Cer, X509Type::Pkcs7, X509Type::Pem]
        },
    }
}

/// What the decoder of `format` made of the bytes, picked from the three
/// answers. `Unknown` has no decoder: nothing accepts under it.
pub open spec fn answer_of<X, E>(
    format: X509Type,
    cer: Result<X, E>,
    pkcs7: Result<X, E>,
    pem: Result<X, E>,
) -> Option<Result<X, E>> {
    match format {
        X509Type::Cer => Some(cer),
        X509Type::Pkcs7 => Some(pkcs7),
        X509Type::Pem => Some(pem),
        X509Type::Unknown => None,
    }
}

/// The collection of the first decoder in `order` that accepted the bytes.
pub open spec fn first_accepted<X, E>(
    order: Seq<X509Type>,
    cer: Result<X, E>,
    pkcs7: Result<X, E>,
    pem: Result<X, E>,
) -> Option<X>
    decreases order.len(),
{
    if order.len() == 0 {
        None
    } else {
        match answer_of(order[0], cer, pkcs7, pem) {
            Some(Ok(x)) => Some(x),
            _ => first_accepted(order.drop_first(), cer, pkcs7, pem),
        }
    }
}

/// What a parse returns, given what each of the three decoders makes of the
/// bytes.
///
/// Strict: the hinted decoder's answer as it stands, and
/// `UnknownFormatNotPermitted` where the hint is `Unknown`. Relaxed: the
/// collection of the first decoder in `decoder_order` that accepts, and
/// `NoFormatMatched` where none does.
pub open spec fn cascade<X, E>(
    strict: bool,
    hint: X509Type,
    cer: Result<X, E>,
    pkcs7: Result<X, E>,
    pem: Result<X, E>,
) -> Result<X, ParseFailure<E>> {
    if strict {
        match answer_of(hint, cer, pkcs7, pem) {
            Some(Ok(x)) => Ok(x),
            Some(Err(e)) => Err(ParseFailure::DecodeFailure(e)),
            None => Err(ParseFailure::UnknownFormatNotPermitted),
        }
    } else {
        match first_accepted(decoder_order(false, hint), cer, pkcs7, pem) {
            Some(x) => Ok(x),
            None => Err(ParseFailure::NoFormatMatched),
        }
    }
}

/// Whether the backend `X` can give every answer that a parse asks for on
/// its way through `order`: each one up to the first that accepts.
pub open spec fn answers_admitted<X: X509Iterator>(
    order: Seq<X509Type>,
    src: Seq<u8>,
    cer: Result<X, X::X509IteratorError>,
    pkcs7: Result<X, X::X509IteratorError>,
    pem: Result<X, X::X509IteratorError>,
) -> bool
    decreases order.len(),
{
    if order.len() == 0 {
        true
    } else {
        match answer_of(order[0], cer, pkcs7, pem) {
            Some(answer) => X::admits(order[0], src, answer) && (answer is Ok || answers_admitted::<X>(
                order.drop_first(),
                src,
                cer,
                pkcs7,
                pem,
            )),
            None => false,
        }
    }
}

/// Whether `outcome` is one that a parse of `src` can end in: what `cascade`
/// makes of three answers of which the backend can give each that is asked
/// for. Where the backend's answers are settled by the bytes, so is the
/// outcome.
pub open spec fn parses_to<X: X509Iterator>(
    strict: bool,
    hint: X509Type,
    src: Seq<u8>,
    outcome: Result<X, ParseFailure<X::X509IteratorError>>,
) -> bool {
    exists|
        cer: Result<X, X::X509IteratorError>,
        pkcs7: Result<X, X::X509IteratorError>,
        pem: Result<X, X::X509IteratorError>,
    |
        #[trigger] cascade(strict, hint, cer, pkcs7, pem) == outcome && answers_admitted::<X>(
            decoder_order(strict, hint),
            src,
            cer,
            pkcs7,
            pem,
        )
}

/// Whether the decoder of `format` can reject `src`.
pub open spec fn can_reject<X: X509Iterator>(format: X509Type, src: Seq<u8>) -> bool {
    exists|e: X::X509IteratorError| #[trigger] X::admits(format, src, Err(e))
}

/// Whether `x` is a collection that the decoder at place `i` of `order` can
/// give to `src`, while every decoder before it can reject `src`.
pub open spec fn found_at<X: X509Iterator>(order: Seq<X509Type>, i: int, src: Seq<u8>, x: X) -> bool {
    &&& 0 <= i < order.len()
    &&& X::admits(order[i], src, Ok(x))
    &&& forall|j: int| 0 <= j < i ==> can_reject::<X>(#[trigger] order[j], src)
}

/// Whether `outcome` is one that the hinted decoder alone leads to: an answer
/// that it can give to `src`, or `UnknownFormatNotPermitted` where the hint
/// names no decoder.
pub open spec fn held_to_hint<X: X509Iterator>(
    hint: X509Type,
    src: Seq<u8>,
    outcome: Result<X, ParseFailure<X::X509IteratorError>>,
) -> bool {
    match outcome {
        Ok(x) => hint != X509Type::Unknown && X::admits(hint, src, Ok(x)),
        Err(ParseFailure::DecodeFailure(e)) => hint != X509Type::Unknown && X::admits(
            hint,
            src,
            Err(e),
        ),
        Err(ParseFailure::UnknownFormatNotPermitted) => hint == X509Type::Unknown,
        Err(ParseFailure::NoFormatMatched) => false,
    }
}

/// Whether `outcome` is one that falling back across the decoders leads to:
/// a collection found at some place of the relaxed order, or
/// `NoFormatMatched` where each of the three decoders can reject `src`.
pub open spec fn fell_back<X: X509Iterator>(
    hint: X509Type,
    src: Seq<u8>,
    outcome: Result<X, ParseFailure<X::X509IteratorError>>,
) -> bool {
    match outcome {
        Ok(x) => exists|i: int| #[trigger] found_at::<X>(decoder_order(false, hint), i, src, x),
        Err(e) => e is NoFormatMatched && can_reject::<X>(X509Type::Cer, src) && can_reject::<X>(
            X509Type::Pkcs7,
            src,
        ) && can_reject::<X>(X509Type::Pem, src),
    }
}

/// Whether `r` is how a request reports `outcome`: a collection as it is, a
/// failure by its kind.
pub open spec fn reports<X, E: X509IteratorError>(
    outcome: Result<X, ParseFailure<E>>,
    r: X509ClientResult<X>,
) -> bool {
    match outcome {
        Ok(x) => r == Ok::<X, X509ClientError>(x),
        Err(ParseFailure::UnknownFormatNotPermitted) => r == Err::<X, _>(
            X509ClientError::UnknownFormatNotPermitted,
        ),
        Err(ParseFailure::DecodeFailure(cause)) => r matches Err(
            X509ClientError::X509IteratorError(text),
        ) && cause.describes(text@),
        Err(ParseFailure::NoFormatMatched) => r == Err::<X, _>(X509ClientError::NoFormatMatched),
    }
}

/// Whether `r` is what a parse of `src` can return to a request: the report
/// of an outcome that the parse can end in.
///
/// So a strict parse without a hint fails with `UnknownFormatNotPermitted`;
/// a strict parse with one returns a collection that the hinted decoder can
/// give, or fails with that decoder's cause; and a relaxed parse returns a
/// collection found at some place of its order, or fails with
/// `NoFormatMatched`.
pub open spec fn parse_returns<X: X509Iterator>(
    strict: bool,
    hint: X509Type,
    src: Seq<u8>,
    r: X509ClientResult<X>,
) -> bool {
    &&& exists|outcome: Result<X, ParseFailure<X::X509IteratorError>>| #[trigger]
        parses_to::<X>(strict, hint, src, outcome) && reports(outcome, r)
    &&& strict && hint == X509Type::Unknown ==> r == Err::<X, _>(
        X509ClientError::UnknownFormatNotPermitted,
    )
    &&& strict && hint != X509Type::Unknown ==> match r {
        Ok(x) => X::admits(hint, src, Ok(x)),
        Err(e) => e is X509IteratorError,
    }
    &&& !strict ==> match r {
        Ok(x) => exists|i: int| #[trigger] found_at::<X>(decoder_order(false, hint), i, src, x),
        Err(e) => e == X509ClientError::NoFormatMatched,
    }
}

/// The answer among `a0`, `a1` and `a2` that the decoder of `format` gave,
/// where they came from the decoders of `order`, one each.
spec fn answer_from<A>(order: Seq<X509Type>, format: X509Type, a0: A, a1: A, a2: A) -> A {
    if order[0] == format {
        a0
    } else if order[1] == format {
        a1
    } else {
        a2
    }
}

impl<E: X509IteratorError> ParseFailure<E> {
    /// The failure as a request reports it; of the decoder's cause the
    /// account in words is kept.
    pub fn into_client_error(self) -> (e: X509ClientError)
        ensures
            match self {
                ParseFailure::UnknownFormatNotPermitted => e
                    == X509ClientError::UnknownFormatNotPermitted,
                ParseFailure::DecodeFailure(cause) => e matches X509ClientError::X509IteratorError(
                    text,
                ) && cause.describes(text@),
                ParseFailure::NoFormatMatched => e == X509ClientError::NoFormatMatched,
            },
    {
        match self {
            ParseFailure::UnknownFormatNotPermitted => X509ClientError::UnknownFormatNotPermitted,
            ParseFailure::DecodeFailure(cause) => X509ClientError::decode_failure(&cause),
            ParseFailure::NoFormatMatched => X509ClientError::NoFormatMatched,
        }
    }
}

/// The decoders that a parse consults, in order: the hinted one, and for a
/// relaxed parse the others after it.
fn decoders(strict: bool, hint: X509Type) -> (order: Vec<X509Type>)
    ensures
        order@ == decoder_order(strict, hint),
{
    let mut order: Vec<X509Type> = Vec::new();
    if hint != X509Type::Unknown {
        order.push(hint);
    }
    if !strict {
        if hint != X509Type::Cer {
            order.push(X509Type::Cer);
        }
        if hint != X509Type::Pkcs7 {
            order.push(X509Type::Pkcs7);
        }
        if hint != X509Type::Pem {
            order.push(X509Type::Pem);
        }
    }
    order
}

/// Picks the first of three answers that is `Ok`.
fn first_ok<X, E>(a: Result<X, E>, b: Result<X, E>, c: Result<X, E>) -> (r: Option<X>)
    ensures
        r == match a {
            Ok(x) => Some(x),
            Err(_) => match b {
                Ok(x) => Some(x),
                Err(_) => match c {
                    Ok(x) => Some(x),
                    Err(_) => None,
                },
            },
        },
{
    match a {
        Ok(x) => Some(x),
        Err(_) => match b {
            Ok(x) => Some(x),
            Err(_) => match c {
                Ok(x) => Some(x),
                Err(_) => None,
            },
        },
    }
}

/// A parser bound to one backend and to one policy, strict or relaxed.
pub struct X509Parse<X: X509Iterator> {
    strict: bool,
    x509_iterator: PhantomData<X>,
}

impl<X: X509Iterator> Clone for X509Parse<X> {
    fn clone(&self) -> (copy: Self)
        ensures
            copy.is_strict() == self.is_strict(),
    {
        X509Parse { strict: self.strict, x509_iterator: PhantomData }
    }
}

impl<X: X509Iterator> X509Parse<X> {
    /// Whether the parser trusts the hint and consults one decoder only.
    pub closed spec fn is_strict(&self) -> bool {
        self.strict
    }

    /// A parser with the given policy.
    pub fn new(strict: bool) -> (parser: Self)
        ensures
            parser.is_strict() == strict,
    {
        X509Parse { strict, x509_iterator: PhantomData }
    }

    /// The decoders that this parser consults for `hint`, in order.
    pub fn decoders(&self, hint: &X509Type) -> (order: Vec<X509Type>)
        ensures
            order@ == decoder_order(self.is_strict(), *hint),
    {
        decoders(self.strict, *hint)
    }

    /// What this parser returns where the three decoders have answered `cer`,
    /// `pkcs7` and `pem` to the same bytes.
    pub fn settle(
        &self,
        hint: &X509Type,
        cer: Result<X, X::X509IteratorError>,
        pkcs7: Result<X, X::X509IteratorError>,
        pem: Result<X, X::X509IteratorError>,
    ) -> (r: Result<X, ParseFailure<X::X509IteratorError>>)
        ensures
            r == cascade(self.is_strict(), *hint, cer, pkcs7, pem),
    {
        proof {
            reveal_with_fuel(first_accepted, 4);
        }
        if self.strict {
            let hinted = match hint {
                X509Type::Cer => cer,
                X509Type::Pkcs7 => pkcs7,
                X509Type::Pem => pem,
                X509Type::Unknown => {
                    return Err(ParseFailure::UnknownFormatNotPermitted);
                },
            };
            match hinted {
                Ok(x) => Ok(x),
                Err(e) => Err(ParseFailure::DecodeFailure(e)),
            }
        } else {
            let ghost order = decoder_order(false, *hint);
            assert(order.drop_first().drop_first().drop_first().len() == 0);
            let found = match hint {
                X509Type::Pkcs7 => first_ok(pkcs7, cer, pem),
                X509Type::Pem => first_ok(pem, cer, pkcs7),
                _ => first_ok(cer, pkcs7, pem),
            };
            match found {
                Some(x) => Ok(x),
                None => Err(ParseFailure::NoFormatMatched),
            }
        }
    }

    /// Calls the decoder of `format` on `src`.
    fn ask(format: X509Type, src: &[u8]) -> (answer: Result<X, X::X509IteratorError>)
        requires
            format != X509Type::Unknown,
        ensures
            X::admits(format, src@, answer),
    {
        match format {
            X509Type::Cer => X::from_cer(src),
            X509Type::Pkcs7 => X::from_pkcs7(src),
            _ => X::from_pem(src),
        }
    }

    /// Decodes `src`, going by `hint` as the policy says. The decoders of
    /// `decoder_order` are called one after the other, and the first answer
    /// that settles the parse ends it: no decoder is called after that.
    pub fn decode(&self, hint: &X509Type, src: &[u8]) -> (outcome: Result<
        X,
        ParseFailure<X::X509IteratorError>,
    >)
        ensures
            parses_to::<X>(self.is_strict(), *hint, src@, outcome),
            self.is_strict() ==> held_to_hint::<X>(*hint, src@, outcome),
            !self.is_strict() ==> fell_back::<X>(*hint, src@, outcome),
    {
        if self.strict {
            let outcome = Self::parse_strict(hint, src);
            proof {
                lemma_strict_parse_is_format_exact::<X>(*hint, src@, outcome);
            }
            outcome
        } else {
            let outcome = Self::parse_relaxed(hint, src);
            proof {
                lemma_relaxed_parse_falls_back::<X>(*hint, src@, outcome);
            }
            outcome
        }
    }

    /// Decodes `src` as `decode` does, and reports a failure as a request
    /// does: by its kind, with the decoder's account of the cause.
    pub fn parse(&self, hint: &X509Type, src: &[u8]) -> (r: X509ClientResult<X>)
        ensures
            parse_returns::<X>(self.is_strict(), *hint, src@, r),
    {
        let outcome = self.decode(hint, src);
        let ghost decoded = outcome;
        let r = match outcome {
            Ok(x) => Ok(x),
            Err(failure) => Err(failure.into_client_error()),
        };
        proof {
            assert(reports(decoded, r));
            if !self.is_strict() && decoded is Ok {
                let i = choose|i: int| #[trigger]
                    found_at::<X>(decoder_order(false, *hint), i, src@, decoded->Ok_0);
                assert(found_at::<X>(decoder_order(false, *hint), i, src@, r->Ok_0));
            }
        }
        r
    }

    /// Consults the hinted decoder and no other.
    fn parse_strict(expected: &X509Type, src: &[u8]) -> (outcome: Result<
        X,
        ParseFailure<X::X509IteratorError>,
    >)
        ensures
            parses_to::<X>(true, *expected, src@, outcome),
    {
        if *expected == X509Type::Unknown {
            let outcome = Err(ParseFailure::UnknownFormatNotPermitted);
            proof {
                let any: Result<X, X::X509IteratorError> = arbitrary();
                assert(cascade(true, *expected, any, any, any) == outcome);
            }
            return outcome;
        }
        let answer = Self::ask(*expected, src);
        let ghost given = answer;
        let outcome = match answer {
            Ok(x) => Ok(x),
            Err(e) => Err(ParseFailure::DecodeFailure(e)),
        };
        proof {
            reveal_with_fuel(answers_admitted, 2);
            assert(cascade(true, *expected, given, given, given) == outcome);
        }
        outcome
    }

    /// Consults the decoders of the relaxed order until one accepts.
    fn parse_relaxed(hint: &X509Type, src: &[u8]) -> (outcome: Result<
        X,
        ParseFailure<X::X509IteratorError>,
    >)
        ensures
            parses_to::<X>(false, *hint, src@, outcome),
    {
        let order = decoders(false, *hint);
        proof {
            reveal_with_fuel(first_accepted, 4);
            reveal_with_fuel(answers_admitted, 4);
            assert(order@.drop_first().drop_first().drop_first().len() == 0);
        }
        let first = Self::ask(order[0], src);
        let ghost a0 = first;
        if let Ok(x) = first {
            assert(cascade(false, *hint, a0, a0, a0) == Ok::<_, ParseFailure<X::X509IteratorError>>(
                x,
            ));
            return Ok(x);
        }
        let second = Self::ask(order[1], src);
        let ghost a1 = second;
        if let Ok(x) = second {
            assert(cascade(
                false,
                *hint,
                answer_from(order@, X509Type::Cer, a0, a1, a1),
                answer_from(order@, X509Type::Pkcs7, a0, a1, a1),
                answer_from(order@, X509Type::Pem, a0, a1, a1),
            ) == Ok::<_, ParseFailure<X::X509IteratorError>>(x));
            return Ok(x);
        }
        let third = Self::ask(order[2], src);
        let ghost a2 = third;
        let outcome = match third {
            Ok(x) => Ok(x),
            Err(_) => Err(ParseFailure::NoFormatMatched),
        };
        assert(cascade(
            false,
            *hint,
            answer_from(order@, X509Type::Cer, a0, a1, a2),
            answer_from(order@, X509Type::Pkcs7, a0, a1, a2),
            answer_from(order@, X509Type::Pem, a0, a1, a2),
        ) == outcome);
        outcome
    }
}

/// A strict parse is exact about the format: it stands or falls with the
/// hinted decoder alone. Where that decoder rejects the bytes the parse fails,
/// whatever another decoder would make of them, although a relaxed parse
/// whose hint names a decoder that accepts them returns that decoder's
/// collection. With nothing known of the format a strict parse never succeeds.
pub proof fn lemma_strict_cascade_is_format_exact<X, E>(
    hint: X509Type,
    other: X509Type,
    cer: Result<X, E>,
    pkcs7: Result<X, E>,
    pem: Result<X, E>,
)
    ensures
        cascade(true, X509Type::Unknown, cer, pkcs7, pem) == Err::<X, _>(
            ParseFailure::<E>::UnknownFormatNotPermitted,
        ),
        answer_of(hint, cer, pkcs7, pem) matches Some(Ok(x)) ==> cascade(
            true,
            hint,
            cer,
            pkcs7,
            pem,
        ) == Ok::<_, ParseFailure<E>>(x),
        answer_of(hint, cer, pkcs7, pem) matches Some(Err(e)) ==> cascade(
            true,
            hint,
            cer,
            pkcs7,
            pem,
        ) == Err::<X, _>(ParseFailure::DecodeFailure(e)),
        answer_of(other, cer, pkcs7, pem) matches Some(Ok(x)) ==> cascade(
            false,
            other,
            cer,
            pkcs7,
            pem,
        ) == Ok::<_, ParseFailure<E>>(x),
{
    reveal_with_fuel(first_accepted, 4);
}

/// A relaxed parse falls back across all three decoders. It returns the
/// hinted decoder's collection where that decoder accepts the bytes, and
/// otherwise that of the first among single certificate, bundle and chain
/// that does. It fails only where all three reject the bytes, and then with
/// `NoFormatMatched`.
pub proof fn lemma_relaxed_cascade_order<X, E>(
    hint: X509Type,
    cer: Result<X, E>,
    pkcs7: Result<X, E>,
    pem: Result<X, E>,
)
    ensures
        cascade(false, hint, cer, pkcs7, pem) is Err <==> cer is Err && pkcs7 is Err && pem is Err,
        cascade(false, hint, cer, pkcs7, pem) matches Err(e) ==> e is NoFormatMatched,
        answer_of(hint, cer, pkcs7, pem) matches Some(Ok(x)) ==> cascade(
            false,
            hint,
            cer,
            pkcs7,
            pem,
        ) == Ok::<_, ParseFailure<E>>(x),
        !(answer_of(hint, cer, pkcs7, pem) matches Some(Ok(_))) ==> cascade(
            false,
            hint,
            cer,
            pkcs7,
            pem,
        ) == (match cer {
            Ok(x) => Ok::<_, ParseFailure<E>>(x),
            Err(_) => match pkcs7 {
                Ok(x) => Ok(x),
                Err(_) => match pem {
                    Ok(x) => Ok(x),
                    Err(_) => Err(ParseFailure::NoFormatMatched),
                },
            },
        }),
{
    reveal_with_fuel(first_accepted, 4);
    let order = decoder_order(false, hint);
    assert(order.drop_first().drop_first().drop_first().len() == 0);
}

/// A strict parse stands or falls with the hinted decoder: what it ends in
/// is an answer that this decoder can give, whatever the other two would
/// make of the bytes. Bytes that the hinted decoder cannot accept fail a
/// strict parse, though another decoder would accept them.
pub proof fn lemma_strict_parse_is_format_exact<X: X509Iterator>(
    hint: X509Type,
    src: Seq<u8>,
    outcome: Result<X, ParseFailure<X::X509IteratorError>>,
)
    requires
        parses_to::<X>(true, hint, src, outcome),
    ensures
        held_to_hint::<X>(hint, src, outcome),
{
    reveal_with_fuel(answers_admitted, 2);
}

/// A relaxed parse falls back across the decoders in their order. Where it
/// succeeds, the collection is an answer that one of the decoders consulted
/// can give, and every decoder consulted before that one can reject the
/// bytes. Where it fails, it fails with `NoFormatMatched`, and each of the
/// three decoders can reject the bytes. So bytes that one decoder is bound to
/// accept are parsed whatever the hint, and bytes that none can accept are
/// not.
pub proof fn lemma_relaxed_parse_falls_back<X: X509Iterator>(
    hint: X509Type,
    src: Seq<u8>,
    outcome: Result<X, ParseFailure<X::X509IteratorError>>,
)
    requires
        parses_to::<X>(false, hint, src, outcome),
    ensures
        fell_back::<X>(hint, src, outcome),
{
    reveal_with_fuel(first_accepted, 4);
    reveal_with_fuel(answers_admitted, 4);
    let order = decoder_order(false, hint);
    assert(order.drop_first().drop_first().drop_first().len() == 0);
    let (c, p, m) = choose|
        c: Result<X, X::X509IteratorError>,
        p: Result<X, X::X509IteratorError>,
        m: Result<X, X::X509IteratorError>,
    |
        #[trigger] cascade(false, hint, c, p, m) == outcome && answers_admitted::<X>(
            order,
            src,
            c,
            p,
            m,
        );
    let a0 = answer_of(order[0], c, p, m)->0;
    let a1 = answer_of(order[1], c, p, m)->0;
    let a2 = answer_of(order[2], c, p, m)->0;
    if a0 is Ok {
        assert(found_at::<X>(order, 0, src, outcome->Ok_0));
    } else {
        assert(X::admits(order[0], src, Err(a0->Err_0)));
        if a1 is Ok {
            assert(found_at::<X>(order, 1, src, outcome->Ok_0));
        } else {
            assert(X::admits(order[1], src, Err(a1->Err_0)));
            if a2 is Ok {
                assert(found_at::<X>(order, 2, src, outcome->Ok_0));
            } else {
                assert(X::admits(order[2], src, Err(a2->Err_0)));
            }
        }
    }
}

/// No parse consults a decoder twice or one that does not exist, and a
/// strict parse consults at most one.
pub proof fn lemma_decoder_order_is_sound(strict: bool, hint: X509Type)
    ensures
        decoder_order(strict, hint).no_duplicates(),
        !decoder_order(strict, hint).contains(X509Type::Unknown),
        strict ==> decoder_order(strict, hint).len() <= 1,
        !strict ==> decoder_order(strict, hint).len() == 3,
        hint != X509Type::Unknown ==> decoder_order(strict, hint)[0] == hint,
{
}

} // verus!
