use vstd::prelude::*;
use vstd::string::*;

use crate::color::Rgb;
use crate::text::{decimal, push_decimal};

verus! {

/// The swatch of one colour.
pub open spec fn swatch(c: Rgb) -> Seq<char> {
    "<div style=\"height: 100%; background: rgb("@ + decimal(c.r as nat) + ","@ + decimal(c.g as nat) + ","@
        + decimal(c.b as nat) + "); flex-grow: 1; padding:3px;\"></div>"@
}

/// The swatches of the first `k` colours, one after another.
pub open spec fn swatches(cs: Seq<Rgb>, k: int) -> Seq<char>
    decreases k,
{
    if k <= 0 {
        seq![]
    } else {
        swatches(cs, k - 1) + swatch(cs[k - 1])
    }
}

/// A row of swatches, one per colour, in a flex container.
pub fn generate_palette_html(gradient: Vec<Rgb>) -> (r: String)
    ensures
        r@ == "<div style:\"width: 100%; display: flex; flex-wrap: wrap;\">"@ + swatches(gradient@, gradient@.len() as int)
            + "</div>"@,
{
    let mut s = String::from_str("<div style:\"width: 100%; display: flex; flex-wrap: wrap;\">");
    let ghost head = s@;
    let mut i: usize = 0;
    while i < gradient.len()
        invariant
            i <= gradient@.len(),
            s@ == head + swatches(gradient@, i as int),
        decreases gradient@.len() - i,
    {
        let c = gradient[i];
        let ghost before = s@;
        s.append("<div style=\"height: 100%; background: rgb(");
        push_decimal(&mut s, c.r as u64);
        s.append(",");
        push_decimal(&mut s, c.g as u64);
        s.append(",");
        push_decimal(&mut s, c.b as u64);
        s.append("); flex-grow: 1; padding:3px;\"></div>");
        assert(s@ =~= before + swatch(c));
        assert(s@ =~= head + swatches(gradient@, i + 1));
        i = i + 1;
    }
    s.append("</div>");
    s
}

} // verus!
