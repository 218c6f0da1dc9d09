//! The decisions behind the text commands: which attachments of an image
//! command are processed, the fixed replies, and the token-stripping of the
//! echo command.

use vstd::prelude::*;

verus! {

/// The reply to an image command that carries no attachments.
pub fn no_images_reply() -> (s: String)
    ensures
        s@ == "No image(s) provided."@,
{
    "No image(s) provided.".to_owned()
}

/// The reply to the ping command.
pub fn ping_reply() -> (s: String)
    ensures
        s@ == "Pong!"@,
{
    "Pong!".to_owned()
}

/// The file name every produced image is uploaded under.
pub fn output_filename() -> (s: String)
    ensures
        s@ == "output.png"@,
{
    "output.png".to_owned()
}

/// The positions of the attachments that are images, in order.
pub open spec fn image_indices(s: Seq<bool>) -> Seq<int>
    decreases s.len(),
{
    if s.len() == 0 {
        Seq::empty()
    } else {
        image_indices(s.drop_last()) + if s.last() {
            seq![s.len() - 1]
        } else {
            Seq::empty()
        }
    }
}

/// What an image command does, decided from its attachments alone.
#[derive(Debug)]
pub enum ImageCommandPlan {
    /// No attachments at all: reply with `no_images_reply` and transform
    /// nothing.
    ReplyNoImages,
    /// Decode and transform exactly the attachments at these positions (the
    /// ones that are images), in order.
    Transform(Vec<usize>),
}

/// Decides an image command from its attachments: `is_image` holds, per
/// attachment, whether it is an image (it has raster dimensions). With no
/// attachments at all, the command only replies that none were provided and
/// triggers no decode or transform; otherwise exactly the image attachments
/// are processed, in order.
pub fn plan_image_command(is_image: &Vec<bool>) -> (p: ImageCommandPlan)
    ensures
        is_image@.len() == 0 <==> p matches ImageCommandPlan::ReplyNoImages,
        p matches ImageCommandPlan::Transform(idx)
            ==> idx@.map_values(|u: usize| u as int) == image_indices(is_image@),
{
    if is_image.len() == 0 {
        return ImageCommandPlan::ReplyNoImages;
    }
    let mut idx: Vec<usize> = Vec::new();
    let mut i: usize = 0;
    while i < is_image.len()
        invariant
            i <= is_image@.len(),
            idx@.map_values(|u: usize| u as int) == image_indices(is_image@.take(i as int)),
        decreases is_image@.len() - i,
    {
        proof {
            assert(is_image@.take(i + 1).drop_last() =~= is_image@.take(i as int));
            assert(is_image@.take(i + 1).last() == is_image@[i as int]);
        }
        let ghost prev = idx@;
        if is_image[i] {
            idx.push(i);
            proof {
                assert(idx@.map_values(|u: usize| u as int)
                    =~= prev.map_values(|u: usize| u as int) + seq![i as int]);
            }
        } else {
            proof {
                assert(image_indices(is_image@.take(i + 1))
                    =~= image_indices(is_image@.take(i as int)));
            }
        }
        i = i + 1;
    }
    proof {
        assert(is_image@.take(is_image@.len() as int) =~= is_image@);
    }
    ImageCommandPlan::Transform(idx)
}

/// The text with the leading command token removed: when the content starts
/// with the token, the remainder after it; otherwise the content unchanged.
/// An empty token removes nothing, and a token that merely occurs later in
/// the text is left alone.
pub open spec fn stripped(s: Seq<char>, pat: Seq<char>) -> Seq<char> {
    if pat.len() > 0 && s.len() >= pat.len() && s.take(pat.len() as int) == pat {
        s.skip(pat.len() as int)
    } else {
        s
    }
}

/// Whether the token occurs in the content at position `i`.
fn matches_at(content: &Vec<char>, i: usize, token: &Vec<char>) -> (b: bool)
    requires
        i + token@.len() <= content@.len(),
    ensures
        b <==> content@.subrange(i as int, i + token@.len()) == token@,
{
    let total: usize = content.len();
    let mut k: usize = 0;
    while k < token.len()
        invariant
            total == content@.len(),
            i + token@.len() <= content@.len(),
            k <= token@.len(),
            forall|j: int| 0 <= j < k ==> content@[i + j] == token@[j],
        decreases token@.len() - k,
    {
        proof {
            assert(i + k < total);
        }
        if content[i + k] != token[k] {
            proof {
                assert(content@.subrange(i as int, i + token@.len())[k as int]
                    == content@[i + k]);
            }
            return false;
        }
        k = k + 1;
    }
    proof {
        assert(content@.subrange(i as int, i + token@.len()) =~= token@);
    }
    true
}

/// Returns the content with the leading command token removed, as the echo
/// command strips its own invocation from the front of the message text; a
/// token that merely occurs later in the text is left alone.
pub fn strip_token(content: &Vec<char>, token: &Vec<char>) -> (out: Vec<char>)
    ensures
        out@ == stripped(content@, token@),
{
    let n = content.len();
    let m = token.len();
    let start: usize = if m > 0 && m <= n && matches_at(content, 0, token) {
        m
    } else {
        0
    };
    proof {
        if m <= n {
            assert(content@.take(m as int) =~= content@.subrange(0, m as int));
        }
    }
    let mut out: Vec<char> = Vec::new();
    let mut i: usize = start;
    proof {
        assert(out@ =~= content@.subrange(start as int, start as int));
    }
    while i < n
        invariant
            start <= i <= n,
            n == content@.len(),
            out@ == content@.subrange(start as int, i as int),
        decreases n - i,
    {
        out.push(content[i]);
        proof {
            assert(out@ =~= content@.subrange(start as int, i + 1));
        }
        i = i + 1;
    }
    proof {
        assert(content@.skip(start as int) =~= content@.subrange(start as int, n as int));
        assert(content@.skip(0) =~= content@);
    }
    out
}

} // verus!
