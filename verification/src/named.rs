//! The named colour table: the CSS named colours, keyed by their exact
//! lowercase names.
//!
//! Lookups are case-sensitive on the lowercase canonical key set; the
//! caller lowercases its input first. The table is split by first letter so
//! each piece stays small.

use vstd::prelude::*;

verus! {

/// The named colours starting with `a`.
#[verifier::opaque]
pub open spec fn spec_named_a(s: Seq<u8>) -> Option<(u8, u8, u8)> {
    if s == seq![97u8, 108u8, 105u8, 99u8, 101u8, 98u8, 108u8, 117u8, 101u8] {
        // aliceblue
        Some((240u8, 248u8, 255u8))
    } else
    if s == seq![97u8, 110u8, 116u8, 105u8, 113u8, 117u8, 101u8, 119u8, 104u8, 105u8, 116u8, 101u8] {
        // antiquewhite
        Some((250u8, 235u8, 215u8))
    } else
    if s == seq![97u8, 113u8, 117u8, 97u8] {
        // aqua
        Some((0u8, 255u8, 255u8))
    } else
    if s == seq![97u8, 113u8, 117u8, 97u8, 109u8, 97u8, 114u8, 105u8, 110u8, 101u8] {
        // aquamarine
        Some((127u8, 255u8, 212u8))
    } else
    if s == seq![97u8, 122u8, 117u8, 114u8, 101u8] {
        // azure
        Some((240u8, 255u8, 255u8))
    } else
    {
        None
    }
}

/// Looks up a name starting with `a`.
fn named_a(s: &[u8]) -> (r: Option<(u8, u8, u8)>)
    ensures
        r == spec_named_a(s@),
{
    proof {
        reveal(spec_named_a);
    }
    let n = s.len();
    if n == 9 && s[0] == 97 && s[1] == 108 && s[2] == 105 && s[3] == 99 && s[4] == 101 && s[5] == 98 && s[6] == 108 && s[7] == 117 && s[8] == 101 {
        proof {
            assert(s@ =~= seq![97u8, 108u8, 105u8, 99u8, 101u8, 98u8, 108u8, 117u8, 101u8]);
        }
        return Some((240u8, 248u8, 255u8));
    }
    if n == 12 && s[0] == 97 && s[1] == 110 && s[2] == 116 && s[3] == 105 && s[4] == 113 && s[5] == 117 && s[6] == 101 && s[7] == 119 && s[8] == 104 && s[9] == 105 && s[10] == 116 && s[11] == 101 {
        proof {
            assert(s@ =~= seq![97u8, 110u8, 116u8, 105u8, 113u8, 117u8, 101u8, 119u8, 104u8, 105u8, 116u8, 101u8]);
        }
        return Some((250u8, 235u8, 215u8));
    }
    if n == 4 && s[0] == 97 && s[1] == 113 && s[2] == 117 && s[3] == 97 {
        proof {
            assert(s@ =~= seq![97u8, 113u8, 117u8, 97u8]);
        }
        return Some((0u8, 255u8, 255u8));
    }
    if n == 10 && s[0] == 97 && s[1] == 113 && s[2] == 117 && s[3] == 97 && s[4] == 109 && s[5] == 97 && s[6] == 114 && s[7] == 105 && s[8] == 110 && s[9] == 101 {
        proof {
            assert(s@ =~= seq![97u8, 113u8, 117u8, 97u8, 109u8, 97u8, 114u8, 105u8, 110u8, 101u8]);
        }
        return Some((127u8, 255u8, 212u8));
    }
    if n == 5 && s[0] == 97 && s[1] == 122 && s[2] == 117 && s[3] == 114 && s[4] == 101 {
        proof {
            assert(s@ =~= seq![97u8, 122u8, 117u8, 114u8, 101u8]);
        }
        return Some((240u8, 255u8, 255u8));
    }
    None
}

/// The named colours starting with `b`.
#[verifier::opaque]
pub open spec fn spec_named_b(s: Seq<u8>) -> Option<(u8, u8, u8)> {
    if s == seq![98u8, 101u8, 105u8, 103u8, 101u8] {
        // beige
        Some((245u8, 245u8, 220u8))
    } else
    if s == seq![98u8, 105u8, 115u8, 113u8, 117u8, 101u8] {
        // bisque
        Some((255u8, 228u8, 196u8))
    } else
    if s == seq![98u8, 108u8, 97u8, 99u8, 107u8] {
        // black
        Some((0u8, 0u8, 0u8))
    } else
    if s == seq![98u8, 108u8, 97u8, 110u8, 99u8, 104u8, 101u8, 100u8, 97u8, 108u8, 109u8, 111u8, 110u8, 100u8] {
        // blanchedalmond
        Some((255u8, 235u8, 205u8))
    } else
    if s == seq![98u8, 108u8, 117u8, 101u8] {
        // blue
        Some((0u8, 0u8, 255u8))
    } else
    if s == seq![98u8, 108u8, 117u8, 101u8, 118u8, 105u8, 111u8, 108u8, 101u8, 116u8] {
        // blueviolet
        Some((138u8, 43u8, 226u8))
    } else
    if s == seq![98u8, 114u8, 111u8, 119u8, 110u8] {
        // brown
        Some((165u8, 42u8, 42u8))
    } else
    if s == seq![98u8, 117u8, 114u8, 108u8, 121u8, 119u8, 111u8, 111u8, 100u8] {
        // burlywood
        Some((222u8, 184u8, 135u8))
    } else
    {
        None
    }
}

/// Looks up a name starting with `b`.
fn named_b(s: &[u8]) -> (r: Option<(u8, u8, u8)>)
    ensures
        r == spec_named_b(s@),
{
    proof {
        reveal(spec_named_b);
    }
    let n = s.len();
    if n == 5 && s[0] == 98 && s[1] == 101 && s[2] == 105 && s[3] == 103 && s[4] == 101 {
        proof {
            assert(s@ =~= seq![98u8, 101u8, 105u8, 103u8, 101u8]);
        }
        return Some((245u8, 245u8, 220u8));
    }
    if n == 6 && s[0] == 98 && s[1] == 105 && s[2] == 115 && s[3] == 113 && s[4] == 117 && s[5] == 101 {
        proof {
            assert(s@ =~= seq![98u8, 105u8, 115u8, 113u8, 117u8, 101u8]);
        }
        return Some((255u8, 228u8, 196u8));
    }
    if n == 5 && s[0] == 98 && s[1] == 108 && s[2] == 97 && s[3] == 99 && s[4] == 107 {
        proof {
            assert(s@ =~= seq![98u8, 108u8, 97u8, 99u8, 107u8]);
        }
        return Some((0u8, 0u8, 0u8));
    }
    if n == 14 && s[0] == 98 && s[1] == 108 && s[2] == 97 && s[3] == 110 && s[4] == 99 && s[5] == 104 && s[6] == 101 && s[7] == 100 && s[8] == 97 && s[9] == 108 && s[10] == 109 && s[11] == 111 && s[12] == 110 && s[13] == 100 {
        proof {
            assert(s@ =~= seq![98u8, 108u8, 97u8, 110u8, 99u8, 104u8, 101u8, 100u8, 97u8, 108u8, 109u8, 111u8, 110u8, 100u8]);
        }
        return Some((255u8, 235u8, 205u8));
    }
    if n == 4 && s[0] == 98 && s[1] == 108 && s[2] == 117 && s[3] == 101 {
        proof {
            assert(s@ =~= seq![98u8, 108u8, 117u8, 101u8]);
        }
        return Some((0u8, 0u8, 255u8));
    }
    if n == 10 && s[0] == 98 && s[1] == 108 && s[2] == 117 && s[3] == 101 && s[4] == 118 && s[5] == 105 && s[6] == 111 && s[7] == 108 && s[8] == 101 && s[9] == 116 {
        proof {
            assert(s@ =~= seq![98u8, 108u8, 117u8, 101u8, 118u8, 105u8, 111u8, 108u8, 101u8, 116u8]);
        }
        return Some((138u8, 43u8, 226u8));
    }
    if n == 5 && s[0] == 98 && s[1] == 114 && s[2] == 111 && s[3] == 119 && s[4] == 110 {
        proof {
            assert(s@ =~= seq![98u8, 114u8, 111u8, 119u8, 110u8]);
        }
        return Some((165u8, 42u8, 42u8));
    }
    if n == 9 && s[0] == 98 && s[1] == 117 && s[2] == 114 && s[3] == 108 && s[4] == 121 && s[5] == 119 && s[6] == 111 && s[7] == 111 && s[8] == 100 {
        proof {
            assert(s@ =~= seq![98u8, 117u8, 114u8, 108u8, 121u8, 119u8, 111u8, 111u8, 100u8]);
        }
        return Some((222u8, 184u8, 135u8));
    }
    None
}

/// The named colours starting with `c`.
#[verifier::opaque]
pub open spec fn spec_named_c(s: Seq<u8>) -> Option<(u8, u8, u8)> {
    if s == seq![99u8, 97u8, 100u8, 101u8, 116u8, 98u8, 108u8, 117u8, 101u8] {
        // cadetblue
        Some((95u8, 158u8, 160u8))
    } else
    if s == seq![99u8, 104u8, 97u8, 114u8, 116u8, 114u8, 101u8, 117u8, 115u8, 101u8] {
        // chartreuse
        Some((127u8, 255u8, 0u8))
    } else
    if s == seq![99u8, 104u8, 111u8, 99u8, 111u8, 108u8, 97u8, 116u8, 101u8] {
        // chocolate
        Some((210u8, 105u8, 30u8))
    } else
    if s == seq![99u8, 111u8, 114u8, 97u8, 108u8] {
        // coral
        Some((255u8, 127u8, 80u8))
    } else
    if s == seq![99u8, 111u8, 114u8, 110u8, 102u8, 108u8, 111u8, 119u8, 101u8, 114u8, 98u8, 108u8, 117u8, 101u8] {
        // cornflowerblue
        Some((100u8, 149u8, 237u8))
    } else
    if s == seq![99u8, 111u8, 114u8, 110u8, 115u8, 105u8, 108u8, 107u8] {
        // cornsilk
        Some((255u8, 248u8, 220u8))
    } else
    if s == seq![99u8, 114u8, 105u8, 109u8, 115u8, 111u8, 110u8] {
        // crimson
        Some((220u8, 20u8, 60u8))
    } else
    if s == seq![99u8, 121u8, 97u8, 110u8] {
        // cyan
        Some((0u8, 255u8, 255u8))
    } else
    {
        None
    }
}

/// Looks up a name starting with `c`.
fn named_c(s: &[u8]) -> (r: Option<(u8, u8, u8)>)
    ensures
        r == spec_named_c(s@),
{
    proof {
        reveal(spec_named_c);
    }
    let n = s.len();
    if n == 9 && s[0] == 99 && s[1] == 97 && s[2] == 100 && s[3] == 101 && s[4] == 116 && s[5] == 98 && s[6] == 108 && s[7] == 117 && s[8] == 101 {
        proof {
            assert(s@ =~= seq![99u8, 97u8, 100u8, 101u8, 116u8, 98u8, 108u8, 117u8, 101u8]);
        }
        return Some((95u8, 158u8, 160u8));
    }
    if n == 10 && s[0] == 99 && s[1] == 104 && s[2] == 97 && s[3] == 114 && s[4] == 116 && s[5] == 114 && s[6] == 101 && s[7] == 117 && s[8] == 115 && s[9] == 101 {
        proof {
            assert(s@ =~= seq![99u8, 104u8, 97u8, 114u8, 116u8, 114u8, 101u8, 117u8, 115u8, 101u8]);
        }
        return Some((127u8, 255u8, 0u8));
    }
    if n == 9 && s[0] == 99 && s[1] == 104 && s[2] == 111 && s[3] == 99 && s[4] == 111 && s[5] == 108 && s[6] == 97 && s[7] == 116 && s[8] == 101 {
        proof {
            assert(s@ =~= seq![99u8, 104u8, 111u8, 99u8, 111u8, 108u8, 97u8, 116u8, 101u8]);
        }
        return Some((210u8, 105u8, 30u8));
    }
    if n == 5 && s[0] == 99 && s[1] == 111 && s[2] == 114 && s[3] == 97 && s[4] == 108 {
        proof {
            assert(s@ =~= seq![99u8, 111u8, 114u8, 97u8, 108u8]);
        }
        return Some((255u8, 127u8, 80u8));
    }
    if n == 14 && s[0] == 99 && s[1] == 111 && s[2] == 114 && s[3] == 110 && s[4] == 102 && s[5] == 108 && s[6] == 111 && s[7] == 119 && s[8] == 101 && s[9] == 114 && s[10] == 98 && s[11] == 108 && s[12] == 117 && s[13] == 101 {
        proof {
            assert(s@ =~= seq![99u8, 111u8, 114u8, 110u8, 102u8, 108u8, 111u8, 119u8, 101u8, 114u8, 98u8, 108u8, 117u8, 101u8]);
        }
        return Some((100u8, 149u8, 237u8));
    }
    if n == 8 && s[0] == 99 && s[1] == 111 && s[2] == 114 && s[3] == 110 && s[4] == 115 && s[5] == 105 && s[6] == 108 && s[7] == 107 {
        proof {
            assert(s@ =~= seq![99u8, 111u8, 114u8, 110u8, 115u8, 105u8, 108u8, 107u8]);
        }
        return Some((255u8, 248u8, 220u8));
    }
    if n == 7 && s[0] == 99 && s[1] == 114 && s[2] == 105 && s[3] == 109 && s[4] == 115 && s[5] == 111 && s[6] == 110 {
        proof {
            assert(s@ =~= seq![99u8, 114u8, 105u8, 109u8, 115u8, 111u8, 110u8]);
        }
        return Some((220u8, 20u8, 60u8));
    }
    if n == 4 && s[0] == 99 && s[1] == 121 && s[2] == 97 && s[3] == 110 {
        proof {
            assert(s@ =~= seq![99u8, 121u8, 97u8, 110u8]);
        }
        return Some((0u8, 255u8, 255u8));
    }
    None
}

/// The named colours starting with `d`.
#[verifier::opaque]
pub open spec fn spec_named_d(s: Seq<u8>) -> Option<(u8, u8, u8)> {
    if s == seq![100u8, 97u8, 114u8, 107u8, 98u8, 108u8, 117u8, 101u8] {
        // darkblue
        Some((0u8, 0u8, 139u8))
    } else
    if s == seq![100u8, 97u8, 114u8, 107u8, 99u8, 121u8, 97u8, 110u8] {
        // darkcyan
        Some((0u8, 139u8, 139u8))
    } else
    if s == seq![100u8, 97u8, 114u8, 107u8, 103u8, 111u8, 108u8, 100u8, 101u8, 110u8, 114u8, 111u8, 100u8] {
        // darkgoldenrod
        Some((184u8, 134u8, 11u8))
    } else
    if s == seq![100u8, 97u8, 114u8, 107u8, 103u8, 114u8, 97u8, 121u8] {
        // darkgray
        Some((169u8, 169u8, 169u8))
    } else
    if s == seq![100u8, 97u8, 114u8, 107u8, 103u8, 114u8, 101u8, 101u8, 110u8] {
        // darkgreen
        Some((0u8, 100u8, 0u8))
    } else
    if s == seq![100u8, 97u8, 114u8, 107u8, 103u8, 114u8, 101u8, 121u8] {
        // darkgrey
        Some((169u8, 169u8, 169u8))
    } else
    if s == seq![100u8, 97u8, 114u8, 107u8, 107u8, 104u8, 97u8, 107u8, 105u8] {
        // darkkhaki
        Some((189u8, 183u8, 107u8))
    } else
    if s == seq![100u8, 97u8, 114u8, 107u8, 109u8, 97u8, 103u8, 101u8, 110u8, 116u8, 97u8] {
        // darkmagenta
        Some((139u8, 0u8, 139u8))
    } else
    if s == seq![100u8, 97u8, 114u8, 107u8, 111u8, 108u8, 105u8, 118u8, 101u8, 103u8, 114u8, 101u8, 101u8, 110u8] {
        // darkolivegreen
        Some((85u8, 107u8, 47u8))
    } else
    if s == seq![100u8, 97u8, 114u8, 107u8, 111u8, 114u8, 97u8, 110u8, 103u8, 101u8] {
        // darkorange
        Some((255u8, 140u8, 0u8))
    } else
    if s == seq![100u8, 97u8, 114u8, 107u8, 111u8, 114u8, 99u8, 104u8, 105u8, 100u8] {
        // darkorchid
        Some((153u8, 50u8, 204u8))
    } else
    if s == seq![100u8, 97u8, 114u8, 107u8, 114u8, 101u8, 100u8] {
        // darkred
        Some((139u8, 0u8, 0u8))
    } else
    if s == seq![100u8, 97u8, 114u8, 107u8, 115u8, 97u8, 108u8, 109u8, 111u8, 110u8] {
        // darksalmon
        Some((233u8, 150u8, 122u8))
    } else
    if s == seq![100u8, 97u8, 114u8, 107u8, 115u8, 101u8, 97u8, 103u8, 114u8, 101u8, 101u8, 110u8] {
        // darkseagreen
        Some((143u8, 188u8, 143u8))
    } else
    if s == seq![100u8, 97u8, 114u8, 107u8, 115u8, 108u8, 97u8, 116u8, 101u8, 98u8, 108u8, 117u8, 101u8] {
        // darkslateblue
        Some((72u8, 61u8, 139u8))
    } else
    if s == seq![100u8, 97u8, 114u8, 107u8, 115u8, 108u8, 97u8, 116u8, 101u8, 103u8, 114u8, 97u8, 121u8] {
        // darkslategray
        Some((47u8, 79u8, 79u8))
    } else
    if s == seq![100u8, 97u8, 114u8, 107u8, 115u8, 108u8, 97u8, 116u8, 101u8, 103u8, 114u8, 101u8, 121u8] {
        // darkslategrey
        Some((47u8, 79u8, 79u8))
    } else
    if s == seq![100u8, 97u8, 114u8, 107u8, 116u8, 117u8, 114u8, 113u8, 117u8, 111u8, 105u8, 115u8, 101u8] {
        // darkturquoise
        Some((0u8, 206u8, 209u8))
    } else
    if s == seq![100u8, 97u8, 114u8, 107u8, 118u8, 105u8, 111u8, 108u8, 101u8, 116u8] {
        // darkviolet
        Some((148u8, 0u8, 211u8))
    } else
    if s == seq![100u8, 101u8, 101u8, 112u8, 112u8, 105u8, 110u8, 107u8] {
        // deeppink
        Some((255u8, 20u8, 147u8))
    } else
    if s == seq![100u8, 101u8, 101u8, 112u8, 115u8, 107u8, 121u8, 98u8, 108u8, 117u8, 101u8] {
        // deepskyblue
        Some((0u8, 191u8, 255u8))
    } else
    if s == seq![100u8, 105u8, 109u8, 103u8, 114u8, 97u8, 121u8] {
        // dimgray
        Some((105u8, 105u8, 105u8))
    } else
    if s == seq![100u8, 105u8, 109u8, 103u8, 114u8, 101u8, 121u8] {
        // dimgrey
        Some((105u8, 105u8, 105u8))
    } else
    if s == seq![100u8, 111u8, 100u8, 103u8, 101u8, 114u8, 98u8, 108u8, 117u8, 101u8] {
        // dodgerblue
        Some((30u8, 144u8, 255u8))
    } else
    {
        None
    }
}

/// Looks up a name starting with `d`.
fn named_d(s: &[u8]) -> (r: Option<(u8, u8, u8)>)
    ensures
        r == spec_named_d(s@),
{
    proof {
        reveal(spec_named_d);
    }
    let n = s.len();
    if n == 8 && s[0] == 100 && s[1] == 97 && s[2] == 114 && s[3] == 107 && s[4] == 98 && s[5] == 108 && s[6] == 117 && s[7] == 101 {
        proof {
            assert(s@ =~= seq![100u8, 97u8, 114u8, 107u8, 98u8, 108u8, 117u8, 101u8]);
        }
        return Some((0u8, 0u8, 139u8));
    }
    if n == 8 && s[0] == 100 && s[1] == 97 && s[2] == 114 && s[3] == 107 && s[4] == 99 && s[5] == 121 && s[6] == 97 && s[7] == 110 {
        proof {
            assert(s@ =~= seq![100u8, 97u8, 114u8, 107u8, 99u8, 121u8, 97u8, 110u8]);
        }
        return Some((0u8, 139u8, 139u8));
    }
    if n == 13 && s[0] == 100 && s[1] == 97 && s[2] == 114 && s[3] == 107 && s[4] == 103 && s[5] == 111 && s[6] == 108 && s[7] == 100 && s[8] == 101 && s[9] == 110 && s[10] == 114 && s[11] == 111 && s[12] == 100 {
        proof {
            assert(s@ =~= seq![100u8, 97u8, 114u8, 107u8, 103u8, 111u8, 108u8, 100u8, 101u8, 110u8, 114u8, 111u8, 100u8]);
        }
        return Some((184u8, 134u8, 11u8));
    }
    if n == 8 && s[0] == 100 && s[1] == 97 && s[2] == 114 && s[3] == 107 && s[4] == 103 && s[5] == 114 && s[6] == 97 && s[7] == 121 {
        proof {
            assert(s@ =~= seq![100u8, 97u8, 114u8, 107u8, 103u8, 114u8, 97u8, 121u8]);
        }
        return Some((169u8, 169u8, 169u8));
    }
    if n == 9 && s[0] == 100 && s[1] == 97 && s[2] == 114 && s[3] == 107 && s[4] == 103 && s[5] == 114 && s[6] == 101 && s[7] == 101 && s[8] == 110 {
        proof {
            assert(s@ =~= seq![100u8, 97u8, 114u8, 107u8, 103u8, 114u8, 101u8, 101u8, 110u8]);
        }
        return Some((0u8, 100u8, 0u8));
    }
    if n == 8 && s[0] == 100 && s[1] == 97 && s[2] == 114 && s[3] == 107 && s[4] == 103 && s[5] == 114 && s[6] == 101 && s[7] == 121 {
        proof {
            assert(s@ =~= seq![100u8, 97u8, 114u8, 107u8, 103u8, 114u8, 101u8, 121u8]);
        }
        return Some((169u8, 169u8, 169u8));
    }
    if n == 9 && s[0] == 100 && s[1] == 97 && s[2] == 114 && s[3] == 107 && s[4] == 107 && s[5] == 104 && s[6] == 97 && s[7] == 107 && s[8] == 105 {
        proof {
            assert(s@ =~= seq![100u8, 97u8, 114u8, 107u8, 107u8, 104u8, 97u8, 107u8, 105u8]);
        }
        return Some((189u8, 183u8, 107u8));
    }
    if n == 11 && s[0] == 100 && s[1] == 97 && s[2] == 114 && s[3] == 107 && s[4] == 109 && s[5] == 97 && s[6] == 103 && s[7] == 101 && s[8] == 110 && s[9] == 116 && s[10] == 97 {
        proof {
            assert(s@ =~= seq![100u8, 97u8, 114u8, 107u8, 109u8, 97u8, 103u8, 101u8, 110u8, 116u8, 97u8]);
        }
        return Some((139u8, 0u8, 139u8));
    }
    if n == 14 && s[0] == 100 && s[1] == 97 && s[2] == 114 && s[3] == 107 && s[4] == 111 && s[5] == 108 && s[6] == 105 && s[7] == 118 && s[8] == 101 && s[9] == 103 && s[10] == 114 && s[11] == 101 && s[12] == 101 && s[13] == 110 {
        proof {
            assert(s@ =~= seq![100u8, 97u8, 114u8, 107u8, 111u8, 108u8, 105u8, 118u8, 101u8, 103u8, 114u8, 101u8, 101u8, 110u8]);
        }
        return Some((85u8, 107u8, 47u8));
    }
    if n == 10 && s[0] == 100 && s[1] == 97 && s[2] == 114 && s[3] == 107 && s[4] == 111 && s[5] == 114 && s[6] == 97 && s[7] == 110 && s[8] == 103 && s[9] == 101 {
        proof {
            assert(s@ =~= seq![100u8, 97u8, 114u8, 107u8, 111u8, 114u8, 97u8, 110u8, 103u8, 101u8]);
        }
        return Some((255u8, 140u8, 0u8));
    }
    if n == 10 && s[0] == 100 && s[1] == 97 && s[2] == 114 && s[3] == 107 && s[4] == 111 && s[5] == 114 && s[6] == 99 && s[7] == 104 && s[8] == 105 && s[9] == 100 {
        proof {
            assert(s@ =~= seq![100u8, 97u8, 114u8, 107u8, 111u8, 114u8, 99u8, 104u8, 105u8, 100u8]);
        }
        return Some((153u8, 50u8, 204u8));
    }
    if n == 7 && s[0] == 100 && s[1] == 97 && s[2] == 114 && s[3] == 107 && s[4] == 114 && s[5] == 101 && s[6] == 100 {
        proof {
            assert(s@ =~= seq![100u8, 97u8, 114u8, 107u8, 114u8, 101u8, 100u8]);
        }
        return Some((139u8, 0u8, 0u8));
    }
    if n == 10 && s[0] == 100 && s[1] == 97 && s[2] == 114 && s[3] == 107 && s[4] == 115 && s[5] == 97 && s[6] == 108 && s[7] == 109 && s[8] == 111 && s[9] == 110 {
        proof {
            assert(s@ =~= seq![100u8, 97u8, 114u8, 107u8, 115u8, 97u8, 108u8, 109u8, 111u8, 110u8]);
        }
        return Some((233u8, 150u8, 122u8));
    }
    if n == 12 && s[0] == 100 && s[1] == 97 && s[2] == 114 && s[3] == 107 && s[4] == 115 && s[5] == 101 && s[6] == 97 && s[7] == 103 && s[8] == 114 && s[9] == 101 && s[10] == 101 && s[11] == 110 {
        proof {
            assert(s@ =~= seq![100u8, 97u8, 114u8, 107u8, 115u8, 101u8, 97u8, 103u8, 114u8, 101u8, 101u8, 110u8]);
        }
        return Some((143u8, 188u8, 143u8));
    }
    if n == 13 && s[0] == 100 && s[1] == 97 && s[2] == 114 && s[3] == 107 && s[4] == 115 && s[5] == 108 && s[6] == 97 && s[7] == 116 && s[8] == 101 && s[9] == 98 && s[10] == 108 && s[11] == 117 && s[12] == 101 {
        proof {
            assert(s@ =~= seq![100u8, 97u8, 114u8, 107u8, 115u8, 108u8, 97u8, 116u8, 101u8, 98u8, 108u8, 117u8, 101u8]);
        }
        return Some((72u8, 61u8, 139u8));
    }
    if n == 13 && s[0] == 100 && s[1] == 97 && s[2] == 114 && s[3] == 107 && s[4] == 115 && s[5] == 108 && s[6] == 97 && s[7] == 116 && s[8] == 101 && s[9] == 103 && s[10] == 114 && s[11] == 97 && s[12] == 121 {
        proof {
            assert(s@ =~= seq![100u8, 97u8, 114u8, 107u8, 115u8, 108u8, 97u8, 116u8, 101u8, 103u8, 114u8, 97u8, 121u8]);
        }
        return Some((47u8, 79u8, 79u8));
    }
    if n == 13 && s[0] == 100 && s[1] == 97 && s[2] == 114 && s[3] == 107 && s[4] == 115 && s[5] == 108 && s[6] == 97 && s[7] == 116 && s[8] == 101 && s[9] == 103 && s[10] == 114 && s[11] == 101 && s[12] == 121 {
        proof {
            assert(s@ =~= seq![100u8, 97u8, 114u8, 107u8, 115u8, 108u8, 97u8, 116u8, 101u8, 103u8, 114u8, 101u8, 121u8]);
        }
        return Some((47u8, 79u8, 79u8));
    }
    if n == 13 && s[0] == 100 && s[1] == 97 && s[2] == 114 && s[3] == 107 && s[4] == 116 && s[5] == 117 && s[6] == 114 && s[7] == 113 && s[8] == 117 && s[9] == 111 && s[10] == 105 && s[11] == 115 && s[12] == 101 {
        proof {
            assert(s@ =~= seq![100u8, 97u8, 114u8, 107u8, 116u8, 117u8, 114u8, 113u8, 117u8, 111u8, 105u8, 115u8, 101u8]);
        }
        return Some((0u8, 206u8, 209u8));
    }
    if n == 10 && s[0] == 100 && s[1] == 97 && s[2] == 114 && s[3] == 107 && s[4] == 118 && s[5] == 105 && s[6] == 111 && s[7] == 108 && s[8] == 101 && s[9] == 116 {
        proof {
            assert(s@ =~= seq![100u8, 97u8, 114u8, 107u8, 118u8, 105u8, 111u8, 108u8, 101u8, 116u8]);
        }
        return Some((148u8, 0u8, 211u8));
    }
    if n == 8 && s[0] == 100 && s[1] == 101 && s[2] == 101 && s[3] == 112 && s[4] == 112 && s[5] == 105 && s[6] == 110 && s[7] == 107 {
        proof {
            assert(s@ =~= seq![100u8, 101u8, 101u8, 112u8, 112u8, 105u8, 110u8, 107u8]);
        }
        return Some((255u8, 20u8, 147u8));
    }
    if n == 11 && s[0] == 100 && s[1] == 101 && s[2] == 101 && s[3] == 112 && s[4] == 115 && s[5] == 107 && s[6] == 121 && s[7] == 98 && s[8] == 108 && s[9] == 117 && s[10] == 101 {
        proof {
            assert(s@ =~= seq![100u8, 101u8, 101u8, 112u8, 115u8, 107u8, 121u8, 98u8, 108u8, 117u8, 101u8]);
        }
        return Some((0u8, 191u8, 255u8));
    }
    if n == 7 && s[0] == 100 && s[1] == 105 && s[2] == 109 && s[3] == 103 && s[4] == 114 && s[5] == 97 && s[6] == 121 {
        proof {
            assert(s@ =~= seq![100u8, 105u8, 109u8, 103u8, 114u8, 97u8, 121u8]);
        }
        return Some((105u8, 105u8, 105u8));
    }
    if n == 7 && s[0] == 100 && s[1] == 105 && s[2] == 109 && s[3] == 103 && s[4] == 114 && s[5] == 101 && s[6] == 121 {
        proof {
            assert(s@ =~= seq![100u8, 105u8, 109u8, 103u8, 114u8, 101u8, 121u8]);
        }
        return Some((105u8, 105u8, 105u8));
    }
    if n == 10 && s[0] == 100 && s[1] == 111 && s[2] == 100 && s[3] == 103 && s[4] == 101 && s[5] == 114 && s[6] == 98 && s[7] == 108 && s[8] == 117 && s[9] == 101 {
        proof {
            assert(s@ =~= seq![100u8, 111u8, 100u8, 103u8, 101u8, 114u8, 98u8, 108u8, 117u8, 101u8]);
        }
        return Some((30u8, 144u8, 255u8));
    }
    None
}

/// The named colours starting with `f`.
#[verifier::opaque]
pub open spec fn spec_named_f(s: Seq<u8>) -> Option<(u8, u8, u8)> {
    if s == seq![102u8, 105u8, 114u8, 101u8, 98u8, 114u8, 105u8, 99u8, 107u8] {
        // firebrick
        Some((178u8, 34u8, 34u8))
    } else
    if s == seq![102u8, 108u8, 111u8, 114u8, 97u8, 108u8, 119u8, 104u8, 105u8, 116u8, 101u8] {
        // floralwhite
        Some((255u8, 250u8, 240u8))
    } else
    if s == seq![102u8, 111u8, 114u8, 101u8, 115u8, 116u8, 103u8, 114u8, 101u8, 101u8, 110u8] {
        // forestgreen
        Some((34u8, 139u8, 34u8))
    } else
    if s == seq![102u8, 117u8, 99u8, 104u8, 115u8, 105u8, 97u8] {
        // fuchsia
        Some((255u8, 0u8, 255u8))
    } else
    {
        None
    }
}

/// Looks up a name starting with `f`.
fn named_f(s: &[u8]) -> (r: Option<(u8, u8, u8)>)
    ensures
        r == spec_named_f(s@),
{
    proof {
        reveal(spec_named_f);
    }
    let n = s.len();
    if n == 9 && s[0] == 102 && s[1] == 105 && s[2] == 114 && s[3] == 101 && s[4] == 98 && s[5] == 114 && s[6] == 105 && s[7] == 99 && s[8] == 107 {
        proof {
            assert(s@ =~= seq![102u8, 105u8, 114u8, 101u8, 98u8, 114u8, 105u8, 99u8, 107u8]);
        }
        return Some((178u8, 34u8, 34u8));
    }
    if n == 11 && s[0] == 102 && s[1] == 108 && s[2] == 111 && s[3] == 114 && s[4] == 97 && s[5] == 108 && s[6] == 119 && s[7] == 104 && s[8] == 105 && s[9] == 116 && s[10] == 101 {
        proof {
            assert(s@ =~= seq![102u8, 108u8, 111u8, 114u8, 97u8, 108u8, 119u8, 104u8, 105u8, 116u8, 101u8]);
        }
        return Some((255u8, 250u8, 240u8));
    }
    if n == 11 && s[0] == 102 && s[1] == 111 && s[2] == 114 && s[3] == 101 && s[4] == 115 && s[5] == 116 && s[6] == 103 && s[7] == 114 && s[8] == 101 && s[9] == 101 && s[10] == 110 {
        proof {
            assert(s@ =~= seq![102u8, 111u8, 114u8, 101u8, 115u8, 116u8, 103u8, 114u8, 101u8, 101u8, 110u8]);
        }
        return Some((34u8, 139u8, 34u8));
    }
    if n == 7 && s[0] == 102 && s[1] == 117 && s[2] == 99 && s[3] == 104 && s[4] == 115 && s[5] == 105 && s[6] == 97 {
        proof {
            assert(s@ =~= seq![102u8, 117u8, 99u8, 104u8, 115u8, 105u8, 97u8]);
        }
        return Some((255u8, 0u8, 255u8));
    }
    None
}

/// The named colours starting with `g`.
#[verifier::opaque]
pub open spec fn spec_named_g(s: Seq<u8>) -> Option<(u8, u8, u8)> {
    if s == seq![103u8, 97u8, 105u8, 110u8, 115u8, 98u8, 111u8, 114u8, 111u8] {
        // gainsboro
        Some((220u8, 220u8, 220u8))
    } else
    if s == seq![103u8, 104u8, 111u8, 115u8, 116u8, 119u8, 104u8, 105u8, 116u8, 101u8] {
        // ghostwhite
        Some((248u8, 248u8, 255u8))
    } else
    if s == seq![103u8, 111u8, 108u8, 100u8] {
        // gold
        Some((255u8, 215u8, 0u8))
    } else
    if s == seq![103u8, 111u8, 108u8, 100u8, 101u8, 110u8, 114u8, 111u8, 100u8] {
        // goldenrod
        Some((218u8, 165u8, 32u8))
    } else
    if s == seq![103u8, 114u8, 97u8, 121u8] {
        // gray
        Some((128u8, 128u8, 128u8))
    } else
    if s == seq![103u8, 114u8, 101u8, 101u8, 110u8] {
        // green
        Some((0u8, 128u8, 0u8))
    } else
    if s == seq![103u8, 114u8, 101u8, 101u8, 110u8, 121u8, 101u8, 108u8, 108u8, 111u8, 119u8] {
        // greenyellow
        Some((173u8, 255u8, 47u8))
    } else
    if s == seq![103u8, 114u8, 101u8, 121u8] {
        // grey
        Some((128u8, 128u8, 128u8))
    } else
    {
        None
    }
}

/// Looks up a name starting with `g`.
fn named_g(s: &[u8]) -> (r: Option<(u8, u8, u8)>)
    ensures
        r == spec_named_g(s@),
{
    proof {
        reveal(spec_named_g);
    }
    let n = s.len();
    if n == 9 && s[0] == 103 && s[1] == 97 && s[2] == 105 && s[3] == 110 && s[4] == 115 && s[5] == 98 && s[6] == 111 && s[7] == 114 && s[8] == 111 {
        proof {
            assert(s@ =~= seq![103u8, 97u8, 105u8, 110u8, 115u8, 98u8, 111u8, 114u8, 111u8]);
        }
        return Some((220u8, 220u8, 220u8));
    }
    if n == 10 && s[0] == 103 && s[1] == 104 && s[2] == 111 && s[3] == 115 && s[4] == 116 && s[5] == 119 && s[6] == 104 && s[7] == 105 && s[8] == 116 && s[9] == 101 {
        proof {
            assert(s@ =~= seq![103u8, 104u8, 111u8, 115u8, 116u8, 119u8, 104u8, 105u8, 116u8, 101u8]);
        }
        return Some((248u8, 248u8, 255u8));
    }
    if n == 4 && s[0] == 103 && s[1] == 111 && s[2] == 108 && s[3] == 100 {
        proof {
            assert(s@ =~= seq![103u8, 111u8, 108u8, 100u8]);
        }
        return Some((255u8, 215u8, 0u8));
    }
    if n == 9 && s[0] == 103 && s[1] == 111 && s[2] == 108 && s[3] == 100 && s[4] == 101 && s[5] == 110 && s[6] == 114 && s[7] == 111 && s[8] == 100 {
        proof {
            assert(s@ =~= seq![103u8, 111u8, 108u8, 100u8, 101u8, 110u8, 114u8, 111u8, 100u8]);
        }
        return Some((218u8, 165u8, 32u8));
    }
    if n == 4 && s[0] == 103 && s[1] == 114 && s[2] == 97 && s[3] == 121 {
        proof {
            assert(s@ =~= seq![103u8, 114u8, 97u8, 121u8]);
        }
        return Some((128u8, 128u8, 128u8));
    }
    if n == 5 && s[0] == 103 && s[1] == 114 && s[2] == 101 && s[3] == 101 && s[4] == 110 {
        proof {
            assert(s@ =~= seq![103u8, 114u8, 101u8, 101u8, 110u8]);
        }
        return Some((0u8, 128u8, 0u8));
    }
    if n == 11 && s[0] == 103 && s[1] == 114 && s[2] == 101 && s[3] == 101 && s[4] == 110 && s[5] == 121 && s[6] == 101 && s[7] == 108 && s[8] == 108 && s[9] == 111 && s[10] == 119 {
        proof {
            assert(s@ =~= seq![103u8, 114u8, 101u8, 101u8, 110u8, 121u8, 101u8, 108u8, 108u8, 111u8, 119u8]);
        }
        return Some((173u8, 255u8, 47u8));
    }
    if n == 4 && s[0] == 103 && s[1] == 114 && s[2] == 101 && s[3] == 121 {
        proof {
            assert(s@ =~= seq![103u8, 114u8, 101u8, 121u8]);
        }
        return Some((128u8, 128u8, 128u8));
    }
    None
}

/// The named colours starting with `h`.
#[verifier::opaque]
pub open spec fn spec_named_h(s: Seq<u8>) -> Option<(u8, u8, u8)> {
    if s == seq![104u8, 111u8, 110u8, 101u8, 121u8, 100u8, 101u8, 119u8] {
        // honeydew
        Some((240u8, 255u8, 240u8))
    } else
    if s == seq![104u8, 111u8, 116u8, 112u8, 105u8, 110u8, 107u8] {
        // hotpink
        Some((255u8, 105u8, 180u8))
    } else
    {
        None
    }
}

/// Looks up a name starting with `h`.
fn named_h(s: &[u8]) -> (r: Option<(u8, u8, u8)>)
    ensures
        r == spec_named_h(s@),
{
    proof {
        reveal(spec_named_h);
    }
    let n = s.len();
    if n == 8 && s[0] == 104 && s[1] == 111 && s[2] == 110 && s[3] == 101 && s[4] == 121 && s[5] == 100 && s[6] == 101 && s[7] == 119 {
        proof {
            assert(s@ =~= seq![104u8, 111u8, 110u8, 101u8, 121u8, 100u8, 101u8, 119u8]);
        }
        return Some((240u8, 255u8, 240u8));
    }
    if n == 7 && s[0] == 104 && s[1] == 111 && s[2] == 116 && s[3] == 112 && s[4] == 105 && s[5] == 110 && s[6] == 107 {
        proof {
            assert(s@ =~= seq![104u8, 111u8, 116u8, 112u8, 105u8, 110u8, 107u8]);
        }
        return Some((255u8, 105u8, 180u8));
    }
    None
}

/// The named colours starting with `i`.
#[verifier::opaque]
pub open spec fn spec_named_i(s: Seq<u8>) -> Option<(u8, u8, u8)> {
    if s == seq![105u8, 110u8, 100u8, 105u8, 97u8, 110u8, 114u8, 101u8, 100u8] {
        // indianred
        Some((205u8, 92u8, 92u8))
    } else
    if s == seq![105u8, 110u8, 100u8, 105u8, 103u8, 111u8] {
        // indigo
        Some((75u8, 0u8, 130u8))
    } else
    if s == seq![105u8, 118u8, 111u8, 114u8, 121u8] {
        // ivory
        Some((255u8, 255u8, 240u8))
    } else
    {
        None
    }
}

/// Looks up a name starting with `i`.
fn named_i(s: &[u8]) -> (r: Option<(u8, u8, u8)>)
    ensures
        r == spec_named_i(s@),
{
    proof {
        reveal(spec_named_i);
    }
    let n = s.len();
    if n == 9 && s[0] == 105 && s[1] == 110 && s[2] == 100 && s[3] == 105 && s[4] == 97 && s[5] == 110 && s[6] == 114 && s[7] == 101 && s[8] == 100 {
        proof {
            assert(s@ =~= seq![105u8, 110u8, 100u8, 105u8, 97u8, 110u8, 114u8, 101u8, 100u8]);
        }
        return Some((205u8, 92u8, 92u8));
    }
    if n == 6 && s[0] == 105 && s[1] == 110 && s[2] == 100 && s[3] == 105 && s[4] == 103 && s[5] == 111 {
        proof {
            assert(s@ =~= seq![105u8, 110u8, 100u8, 105u8, 103u8, 111u8]);
        }
        return Some((75u8, 0u8, 130u8));
    }
    if n == 5 && s[0] == 105 && s[1] == 118 && s[2] == 111 && s[3] == 114 && s[4] == 121 {
        proof {
            assert(s@ =~= seq![105u8, 118u8, 111u8, 114u8, 121u8]);
        }
        return Some((255u8, 255u8, 240u8));
    }
    None
}

/// The named colours starting with `k`.
#[verifier::opaque]
pub open spec fn spec_named_k(s: Seq<u8>) -> Option<(u8, u8, u8)> {
    if s == seq![107u8, 104u8, 97u8, 107u8, 105u8] {
        // khaki
        Some((240u8, 230u8, 140u8))
    } else
    {
        None
    }
}

/// Looks up a name starting with `k`.
fn named_k(s: &[u8]) -> (r: Option<(u8, u8, u8)>)
    ensures
        r == spec_named_k(s@),
{
    proof {
        reveal(spec_named_k);
    }
    let n = s.len();
    if n == 5 && s[0] == 107 && s[1] == 104 && s[2] == 97 && s[3] == 107 && s[4] == 105 {
        proof {
            assert(s@ =~= seq![107u8, 104u8, 97u8, 107u8, 105u8]);
        }
        return Some((240u8, 230u8, 140u8));
    }
    None
}

/// The named colours starting with `l`.
#[verifier::opaque]
pub open spec fn spec_named_l(s: Seq<u8>) -> Option<(u8, u8, u8)> {
    if s == seq![108u8, 97u8, 118u8, 101u8, 110u8, 100u8, 101u8, 114u8] {
        // lavender
        Some((230u8, 230u8, 250u8))
    } else
    if s == seq![108u8, 97u8, 118u8, 101u8, 110u8, 100u8, 101u8, 114u8, 98u8, 108u8, 117u8, 115u8, 104u8] {
        // lavenderblush
        Some((255u8, 240u8, 245u8))
    } else
    if s == seq![108u8, 97u8, 119u8, 110u8, 103u8, 114u8, 101u8, 101u8, 110u8] {
        // lawngreen
        Some((124u8, 252u8, 0u8))
    } else
    if s == seq![108u8, 101u8, 109u8, 111u8, 110u8, 99u8, 104u8, 105u8, 102u8, 102u8, 111u8, 110u8] {
        // lemonchiffon
        Some((255u8, 250u8, 205u8))
    } else
    if s == seq![108u8, 105u8, 103u8, 104u8, 116u8, 98u8, 108u8, 117u8, 101u8] {
        // lightblue
        Some((173u8, 216u8, 230u8))
    } else
    if s == seq![108u8, 105u8, 103u8, 104u8, 116u8, 99u8, 111u8, 114u8, 97u8, 108u8] {
        // lightcoral
        Some((240u8, 128u8, 128u8))
    } else
    if s == seq![108u8, 105u8, 103u8, 104u8, 116u8, 99u8, 121u8, 97u8, 110u8] {
        // lightcyan
        Some((224u8, 255u8, 255u8))
    } else
    if s == seq![108u8, 105u8, 103u8, 104u8, 116u8, 103u8, 111u8, 108u8, 100u8, 101u8, 110u8, 114u8, 111u8, 100u8, 121u8, 101u8, 108u8, 108u8, 111u8, 119u8] {
        // lightgoldenrodyellow
        Some((250u8, 250u8, 210u8))
    } else
    if s == seq![108u8, 105u8, 103u8, 104u8, 116u8, 103u8, 114u8, 97u8, 121u8] {
        // lightgray
        Some((211u8, 211u8, 211u8))
    } else
    if s == seq![108u8, 105u8, 103u8, 104u8, 116u8, 103u8, 114u8, 101u8, 101u8, 110u8] {
        // lightgreen
        Some((144u8, 238u8, 144u8))
    } else
    if s == seq![108u8, 105u8, 103u8, 104u8, 116u8, 103u8, 114u8, 101u8, 121u8] {
        // lightgrey
        Some((211u8, 211u8, 211u8))
    } else
    if s == seq![108u8, 105u8, 103u8, 104u8, 116u8, 112u8, 105u8, 110u8, 107u8] {
        // lightpink
        Some((255u8, 182u8, 193u8))
    } else
    if s == seq![108u8, 105u8, 103u8, 104u8, 116u8, 115u8, 97u8, 108u8, 109u8, 111u8, 110u8] {
        // lightsalmon
        Some((255u8, 160u8, 122u8))
    } else
    if s == seq![108u8, 105u8, 103u8, 104u8, 116u8, 115u8, 101u8, 97u8, 103u8, 114u8, 101u8, 101u8, 110u8] {
        // lightseagreen
        Some((32u8, 178u8, 170u8))
    } else
    if s == seq![108u8, 105u8, 103u8, 104u8, 116u8, 115u8, 107u8, 121u8, 98u8, 108u8, 117u8, 101u8] {
        // lightskyblue
        Some((135u8, 206u8, 250u8))
    } else
    if s == seq![108u8, 105u8, 103u8, 104u8, 116u8, 115u8, 108u8, 97u8, 116u8, 101u8, 103u8, 114u8, 97u8, 121u8] {
        // lightslategray
        Some((119u8, 136u8, 153u8))
    } else
    if s == seq![108u8, 105u8, 103u8, 104u8, 116u8, 115u8, 108u8, 97u8, 116u8, 101u8, 103u8, 114u8, 101u8, 121u8] {
        // lightslategrey
        Some((119u8, 136u8, 153u8))
    } else
    if s == seq![108u8, 105u8, 103u8, 104u8, 116u8, 115u8, 116u8, 101u8, 101u8, 108u8, 98u8, 108u8, 117u8, 101u8] {
        // lightsteelblue
        Some((176u8, 196u8, 222u8))
    } else
    if s == seq![108u8, 105u8, 103u8, 104u8, 116u8, 121u8, 101u8, 108u8, 108u8, 111u8, 119u8] {
        // lightyellow
        Some((255u8, 255u8, 224u8))
    } else
    if s == seq![108u8, 105u8, 109u8, 101u8] {
        // lime
        Some((0u8, 255u8, 0u8))
    } else
    if s == seq![108u8, 105u8, 109u8, 101u8, 103u8, 114u8, 101u8, 101u8, 110u8] {
        // limegreen
        Some((50u8, 205u8, 50u8))
    } else
    if s == seq![108u8, 105u8, 110u8, 101u8, 110u8] {
        // linen
        Some((250u8, 240u8, 230u8))
    } else
    {
        None
    }
}

/// Looks up a name starting with `l`.
fn named_l(s: &[u8]) -> (r: Option<(u8, u8, u8)>)
    ensures
        r == spec_named_l(s@),
{
    proof {
        reveal(spec_named_l);
    }
    let n = s.len();
    if n == 8 && s[0] == 108 && s[1] == 97 && s[2] == 118 && s[3] == 101 && s[4] == 110 && s[5] == 100 && s[6] == 101 && s[7] == 114 {
        proof {
            assert(s@ =~= seq![108u8, 97u8, 118u8, 101u8, 110u8, 100u8, 101u8, 114u8]);
        }
        return Some((230u8, 230u8, 250u8));
    }
    if n == 13 && s[0] == 108 && s[1] == 97 && s[2] == 118 && s[3] == 101 && s[4] == 110 && s[5] == 100 && s[6] == 101 && s[7] == 114 && s[8] == 98 && s[9] == 108 && s[10] == 117 && s[11] == 115 && s[12] == 104 {
        proof {
            assert(s@ =~= seq![108u8, 97u8, 118u8, 101u8, 110u8, 100u8, 101u8, 114u8, 98u8, 108u8, 117u8, 115u8, 104u8]);
        }
        return Some((255u8, 240u8, 245u8));
    }
    if n == 9 && s[0] == 108 && s[1] == 97 && s[2] == 119 && s[3] == 110 && s[4] == 103 && s[5] == 114 && s[6] == 101 && s[7] == 101 && s[8] == 110 {
        proof {
            assert(s@ =~= seq![108u8, 97u8, 119u8, 110u8, 103u8, 114u8, 101u8, 101u8, 110u8]);
        }
        return Some((124u8, 252u8, 0u8));
    }
    if n == 12 && s[0] == 108 && s[1] == 101 && s[2] == 109 && s[3] == 111 && s[4] == 110 && s[5] == 99 && s[6] == 104 && s[7] == 105 && s[8] == 102 && s[9] == 102 && s[10] == 111 && s[11] == 110 {
        proof {
            assert(s@ =~= seq![108u8, 101u8, 109u8, 111u8, 110u8, 99u8, 104u8, 105u8, 102u8, 102u8, 111u8, 110u8]);
        }
        return Some((255u8, 250u8, 205u8));
    }
    if n == 9 && s[0] == 108 && s[1] == 105 && s[2] == 103 && s[3] == 104 && s[4] == 116 && s[5] == 98 && s[6] == 108 && s[7] == 117 && s[8] == 101 {
        proof {
            assert(s@ =~= seq![108u8, 105u8, 103u8, 104u8, 116u8, 98u8, 108u8, 117u8, 101u8]);
        }
        return Some((173u8, 216u8, 230u8));
    }
    if n == 10 && s[0] == 108 && s[1] == 105 && s[2] == 103 && s[3] == 104 && s[4] == 116 && s[5] == 99 && s[6] == 111 && s[7] == 114 && s[8] == 97 && s[9] == 108 {
        proof {
            assert(s@ =~= seq![108u8, 105u8, 103u8, 104u8, 116u8, 99u8, 111u8, 114u8, 97u8, 108u8]);
        }
        return Some((240u8, 128u8, 128u8));
    }
    if n == 9 && s[0] == 108 && s[1] == 105 && s[2] == 103 && s[3] == 104 && s[4] == 116 && s[5] == 99 && s[6] == 121 && s[7] == 97 && s[8] == 110 {
        proof {
            assert(s@ =~= seq![108u8, 105u8, 103u8, 104u8, 116u8, 99u8, 121u8, 97u8, 110u8]);
        }
        return Some((224u8, 255u8, 255u8));
    }
    if n == 20 && s[0] == 108 && s[1] == 105 && s[2] == 103 && s[3] == 104 && s[4] == 116 && s[5] == 103 && s[6] == 111 && s[7] == 108 && s[8] == 100 && s[9] == 101 && s[10] == 110 && s[11] == 114 && s[12] == 111 && s[13] == 100 && s[14] == 121 && s[15] == 101 && s[16] == 108 && s[17] == 108 && s[18] == 111 && s[19] == 119 {
        proof {
            assert(s@ =~= seq![108u8, 105u8, 103u8, 104u8, 116u8, 103u8, 111u8, 108u8, 100u8, 101u8, 110u8, 114u8, 111u8, 100u8, 121u8, 101u8, 108u8, 108u8, 111u8, 119u8]);
        }
        return Some((250u8, 250u8, 210u8));
    }
    if n == 9 && s[0] == 108 && s[1] == 105 && s[2] == 103 && s[3] == 104 && s[4] == 116 && s[5] == 103 && s[6] == 114 && s[7] == 97 && s[8] == 121 {
        proof {
            assert(s@ =~= seq![108u8, 105u8, 103u8, 104u8, 116u8, 103u8, 114u8, 97u8, 121u8]);
        }
        return Some((211u8, 211u8, 211u8));
    }
    if n == 10 && s[0] == 108 && s[1] == 105 && s[2] == 103 && s[3] == 104 && s[4] == 116 && s[5] == 103 && s[6] == 114 && s[7] == 101 && s[8] == 101 && s[9] == 110 {
        proof {
            assert(s@ =~= seq![108u8, 105u8, 103u8, 104u8, 116u8, 103u8, 114u8, 101u8, 101u8, 110u8]);
        }
        return Some((144u8, 238u8, 144u8));
    }
    if n == 9 && s[0] == 108 && s[1] == 105 && s[2] == 103 && s[3] == 104 && s[4] == 116 && s[5] == 103 && s[6] == 114 && s[7] == 101 && s[8] == 121 {
        proof {
            assert(s@ =~= seq![108u8, 105u8, 103u8, 104u8, 116u8, 103u8, 114u8, 101u8, 121u8]);
        }
        return Some((211u8, 211u8, 211u8));
    }
    if n == 9 && s[0] == 108 && s[1] == 105 && s[2] == 103 && s[3] == 104 && s[4] == 116 && s[5] == 112 && s[6] == 105 && s[7] == 110 && s[8] == 107 {
        proof {
            assert(s@ =~= seq![108u8, 105u8, 103u8, 104u8, 116u8, 112u8, 105u8, 110u8, 107u8]);
        }
        return Some((255u8, 182u8, 193u8));
    }
    if n == 11 && s[0] == 108 && s[1] == 105 && s[2] == 103 && s[3] == 104 && s[4] == 116 && s[5] == 115 && s[6] == 97 && s[7] == 108 && s[8] == 109 && s[9] == 111 && s[10] == 110 {
        proof {
            assert(s@ =~= seq![108u8, 105u8, 103u8, 104u8, 116u8, 115u8, 97u8, 108u8, 109u8, 111u8, 110u8]);
        }
        return Some((255u8, 160u8, 122u8));
    }
    if n == 13 && s[0] == 108 && s[1] == 105 && s[2] == 103 && s[3] == 104 && s[4] == 116 && s[5] == 115 && s[6] == 101 && s[7] == 97 && s[8] == 103 && s[9] == 114 && s[10] == 101 && s[11] == 101 && s[12] == 110 {
        proof {
            assert(s@ =~= seq![108u8, 105u8, 103u8, 104u8, 116u8, 115u8, 101u8, 97u8, 103u8, 114u8, 101u8, 101u8, 110u8]);
        }
        return Some((32u8, 178u8, 170u8));
    }
    if n == 12 && s[0] == 108 && s[1] == 105 && s[2] == 103 && s[3] == 104 && s[4] == 116 && s[5] == 115 && s[6] == 107 && s[7] == 121 && s[8] == 98 && s[9] == 108 && s[10] == 117 && s[11] == 101 {
        proof {
            assert(s@ =~= seq![108u8, 105u8, 103u8, 104u8, 116u8, 115u8, 107u8, 121u8, 98u8, 108u8, 117u8, 101u8]);
        }
        return Some((135u8, 206u8, 250u8));
    }
    if n == 14 && s[0] == 108 && s[1] == 105 && s[2] == 103 && s[3] == 104 && s[4] == 116 && s[5] == 115 && s[6] == 108 && s[7] == 97 && s[8] == 116 && s[9] == 101 && s[10] == 103 && s[11] == 114 && s[12] == 97 && s[13] == 121 {
        proof {
            assert(s@ =~= seq![108u8, 105u8, 103u8, 104u8, 116u8, 115u8, 108u8, 97u8, 116u8, 101u8, 103u8, 114u8, 97u8, 121u8]);
        }
        return Some((119u8, 136u8, 153u8));
    }
    if n == 14 && s[0] == 108 && s[1] == 105 && s[2] == 103 && s[3] == 104 && s[4] == 116 && s[5] == 115 && s[6] == 108 && s[7] == 97 && s[8] == 116 && s[9] == 101 && s[10] == 103 && s[11] == 114 && s[12] == 101 && s[13] == 121 {
        proof {
            assert(s@ =~= seq![108u8, 105u8, 103u8, 104u8, 116u8, 115u8, 108u8, 97u8, 116u8, 101u8, 103u8, 114u8, 101u8, 121u8]);
        }
        return Some((119u8, 136u8, 153u8));
    }
    if n == 14 && s[0] == 108 && s[1] == 105 && s[2] == 103 && s[3] == 104 && s[4] == 116 && s[5] == 115 && s[6] == 116 && s[7] == 101 && s[8] == 101 && s[9] == 108 && s[10] == 98 && s[11] == 108 && s[12] == 117 && s[13] == 101 {
        proof {
            assert(s@ =~= seq![108u8, 105u8, 103u8, 104u8, 116u8, 115u8, 116u8, 101u8, 101u8, 108u8, 98u8, 108u8, 117u8, 101u8]);
        }
        return Some((176u8, 196u8, 222u8));
    }
    if n == 11 && s[0] == 108 && s[1] == 105 && s[2] == 103 && s[3] == 104 && s[4] == 116 && s[5] == 121 && s[6] == 101 && s[7] == 108 && s[8] == 108 && s[9] == 111 && s[10] == 119 {
        proof {
            assert(s@ =~= seq![108u8, 105u8, 103u8, 104u8, 116u8, 121u8, 101u8, 108u8, 108u8, 111u8, 119u8]);
        }
        return Some((255u8, 255u8, 224u8));
    }
    if n == 4 && s[0] == 108 && s[1] == 105 && s[2] == 109 && s[3] == 101 {
        proof {
            assert(s@ =~= seq![108u8, 105u8, 109u8, 101u8]);
        }
        return Some((0u8, 255u8, 0u8));
    }
    if n == 9 && s[0] == 108 && s[1] == 105 && s[2] == 109 && s[3] == 101 && s[4] == 103 && s[5] == 114 && s[6] == 101 && s[7] == 101 && s[8] == 110 {
        proof {
            assert(s@ =~= seq![108u8, 105u8, 109u8, 101u8, 103u8, 114u8, 101u8, 101u8, 110u8]);
        }
        return Some((50u8, 205u8, 50u8));
    }
    if n == 5 && s[0] == 108 && s[1] == 105 && s[2] == 110 && s[3] == 101 && s[4] == 110 {
        proof {
            assert(s@ =~= seq![108u8, 105u8, 110u8, 101u8, 110u8]);
        }
        return Some((250u8, 240u8, 230u8));
    }
    None
}

/// The named colours starting with `m`.
#[verifier::opaque]
pub open spec fn spec_named_m(s: Seq<u8>) -> Option<(u8, u8, u8)> {
    if s == seq![109u8, 97u8, 103u8, 101u8, 110u8, 116u8, 97u8] {
        // magenta
        Some((255u8, 0u8, 255u8))
    } else
    if s == seq![109u8, 97u8, 114u8, 111u8, 111u8, 110u8] {
        // maroon
        Some((128u8, 0u8, 0u8))
    } else
    if s == seq![109u8, 101u8, 100u8, 105u8, 117u8, 109u8, 97u8, 113u8, 117u8, 97u8, 109u8, 97u8, 114u8, 105u8, 110u8, 101u8] {
        // mediumaquamarine
        Some((102u8, 205u8, 170u8))
    } else
    if s == seq![109u8, 101u8, 100u8, 105u8, 117u8, 109u8, 98u8, 108u8, 117u8, 101u8] {
        // mediumblue
        Some((0u8, 0u8, 205u8))
    } else
    if s == seq![109u8, 101u8, 100u8, 105u8, 117u8, 109u8, 111u8, 114u8, 99u8, 104u8, 105u8, 100u8] {
        // mediumorchid
        Some((186u8, 85u8, 211u8))
    } else
    if s == seq![109u8, 101u8, 100u8, 105u8, 117u8, 109u8, 112u8, 117u8, 114u8, 112u8, 108u8, 101u8] {
        // mediumpurple
        Some((147u8, 112u8, 219u8))
    } else
    if s == seq![109u8, 101u8, 100u8, 105u8, 117u8, 109u8, 115u8, 101u8, 97u8, 103u8, 114u8, 101u8, 101u8, 110u8] {
        // mediumseagreen
        Some((60u8, 179u8, 113u8))
    } else
    if s == seq![109u8, 101u8, 100u8, 105u8, 117u8, 109u8, 115u8, 108u8, 97u8, 116u8, 101u8, 98u8, 108u8, 117u8, 101u8] {
        // mediumslateblue
        Some((123u8, 104u8, 238u8))
    } else
    if s == seq![109u8, 101u8, 100u8, 105u8, 117u8, 109u8, 115u8, 112u8, 114u8, 105u8, 110u8, 103u8, 103u8, 114u8, 101u8, 101u8, 110u8] {
        // mediumspringgreen
        Some((0u8, 250u8, 154u8))
    } else
    if s == seq![109u8, 101u8, 100u8, 105u8, 117u8, 109u8, 116u8, 117u8, 114u8, 113u8, 117u8, 111u8, 105u8, 115u8, 101u8] {
        // mediumturquoise
        Some((72u8, 209u8, 204u8))
    } else
    if s == seq![109u8, 101u8, 100u8, 105u8, 117u8, 109u8, 118u8, 105u8, 111u8, 108u8, 101u8, 116u8, 114u8, 101u8, 100u8] {
        // mediumvioletred
        Some((199u8, 21u8, 133u8))
    } else
    if s == seq![109u8, 105u8, 100u8, 110u8, 105u8, 103u8, 104u8, 116u8, 98u8, 108u8, 117u8, 101u8] {
        // midnightblue
        Some((25u8, 25u8, 112u8))
    } else
    if s == seq![109u8, 105u8, 110u8, 116u8, 99u8, 114u8, 101u8, 97u8, 109u8] {
        // mintcream
        Some((245u8, 255u8, 250u8))
    } else
    if s == seq![109u8, 105u8, 115u8, 116u8, 121u8, 114u8, 111u8, 115u8, 101u8] {
        // mistyrose
        Some((255u8, 228u8, 225u8))
    } else
    if s == seq![109u8, 111u8, 99u8, 99u8, 97u8, 115u8, 105u8, 110u8] {
        // moccasin
        Some((255u8, 228u8, 181u8))
    } else
    {
        None
    }
}

/// Looks up a name starting with `m`.
fn named_m(s: &[u8]) -> (r: Option<(u8, u8, u8)>)
    ensures
        r == spec_named_m(s@),
{
    proof {
        reveal(spec_named_m);
    }
    let n = s.len();
    if n == 7 && s[0] == 109 && s[1] == 97 && s[2] == 103 && s[3] == 101 && s[4] == 110 && s[5] == 116 && s[6] == 97 {
        proof {
            assert(s@ =~= seq![109u8, 97u8, 103u8, 101u8, 110u8, 116u8, 97u8]);
        }
        return Some((255u8, 0u8, 255u8));
    }
    if n == 6 && s[0] == 109 && s[1] == 97 && s[2] == 114 && s[3] == 111 && s[4] == 111 && s[5] == 110 {
        proof {
            assert(s@ =~= seq![109u8, 97u8, 114u8, 111u8, 111u8, 110u8]);
        }
        return Some((128u8, 0u8, 0u8));
    }
    if n == 16 && s[0] == 109 && s[1] == 101 && s[2] == 100 && s[3] == 105 && s[4] == 117 && s[5] == 109 && s[6] == 97 && s[7] == 113 && s[8] == 117 && s[9] == 97 && s[10] == 109 && s[11] == 97 && s[12] == 114 && s[13] == 105 && s[14] == 110 && s[15] == 101 {
        proof {
            assert(s@ =~= seq![109u8, 101u8, 100u8, 105u8, 117u8, 109u8, 97u8, 113u8, 117u8, 97u8, 109u8, 97u8, 114u8, 105u8, 110u8, 101u8]);
        }
        return Some((102u8, 205u8, 170u8));
    }
    if n == 10 && s[0] == 109 && s[1] == 101 && s[2] == 100 && s[3] == 105 && s[4] == 117 && s[5] == 109 && s[6] == 98 && s[7] == 108 && s[8] == 117 && s[9] == 101 {
        proof {
            assert(s@ =~= seq![109u8, 101u8, 100u8, 105u8, 117u8, 109u8, 98u8, 108u8, 117u8, 101u8]);
        }
        return Some((0u8, 0u8, 205u8));
    }
    if n == 12 && s[0] == 109 && s[1] == 101 && s[2] == 100 && s[3] == 105 && s[4] == 117 && s[5] == 109 && s[6] == 111 && s[7] == 114 && s[8] == 99 && s[9] == 104 && s[10] == 105 && s[11] == 100 {
        proof {
            assert(s@ =~= seq![109u8, 101u8, 100u8, 105u8, 117u8, 109u8, 111u8, 114u8, 99u8, 104u8, 105u8, 100u8]);
        }
        return Some((186u8, 85u8, 211u8));
    }
    if n == 12 && s[0] == 109 && s[1] == 101 && s[2] == 100 && s[3] == 105 && s[4] == 117 && s[5] == 109 && s[6] == 112 && s[7] == 117 && s[8] == 114 && s[9] == 112 && s[10] == 108 && s[11] == 101 {
        proof {
            assert(s@ =~= seq![109u8, 101u8, 100u8, 105u8, 117u8, 109u8, 112u8, 117u8, 114u8, 112u8, 108u8, 101u8]);
        }
        return Some((147u8, 112u8, 219u8));
    }
    if n == 14 && s[0] == 109 && s[1] == 101 && s[2] == 100 && s[3] == 105 && s[4] == 117 && s[5] == 109 && s[6] == 115 && s[7] == 101 && s[8] == 97 && s[9] == 103 && s[10] == 114 && s[11] == 101 && s[12] == 101 && s[13] == 110 {
        proof {
            assert(s@ =~= seq![109u8, 101u8, 100u8, 105u8, 117u8, 109u8, 115u8, 101u8, 97u8, 103u8, 114u8, 101u8, 101u8, 110u8]);
        }
        return Some((60u8, 179u8, 113u8));
    }
    if n == 15 && s[0] == 109 && s[1] == 101 && s[2] == 100 && s[3] == 105 && s[4] == 117 && s[5] == 109 && s[6] == 115 && s[7] == 108 && s[8] == 97 && s[9] == 116 && s[10] == 101 && s[11] == 98 && s[12] == 108 && s[13] == 117 && s[14] == 101 {
        proof {
            assert(s@ =~= seq![109u8, 101u8, 100u8, 105u8, 117u8, 109u8, 115u8, 108u8, 97u8, 116u8, 101u8, 98u8, 108u8, 117u8, 101u8]);
        }
        return Some((123u8, 104u8, 238u8));
    }
    if n == 17 && s[0] == 109 && s[1] == 101 && s[2] == 100 && s[3] == 105 && s[4] == 117 && s[5] == 109 && s[6] == 115 && s[7] == 112 && s[8] == 114 && s[9] == 105 && s[10] == 110 && s[11] == 103 && s[12] == 103 && s[13] == 114 && s[14] == 101 && s[15] == 101 && s[16] == 110 {
        proof {
            assert(s@ =~= seq![109u8, 101u8, 100u8, 105u8, 117u8, 109u8, 115u8, 112u8, 114u8, 105u8, 110u8, 103u8, 103u8, 114u8, 101u8, 101u8, 110u8]);
        }
        return Some((0u8, 250u8, 154u8));
    }
    if n == 15 && s[0] == 109 && s[1] == 101 && s[2] == 100 && s[3] == 105 && s[4] == 117 && s[5] == 109 && s[6] == 116 && s[7] == 117 && s[8] == 114 && s[9] == 113 && s[10] == 117 && s[11] == 111 && s[12] == 105 && s[13] == 115 && s[14] == 101 {
        proof {
            assert(s@ =~= seq![109u8, 101u8, 100u8, 105u8, 117u8, 109u8, 116u8, 117u8, 114u8, 113u8, 117u8, 111u8, 105u8, 115u8, 101u8]);
        }
        return Some((72u8, 209u8, 204u8));
    }
    if n == 15 && s[0] == 109 && s[1] == 101 && s[2] == 100 && s[3] == 105 && s[4] == 117 && s[5] == 109 && s[6] == 118 && s[7] == 105 && s[8] == 111 && s[9] == 108 && s[10] == 101 && s[11] == 116 && s[12] == 114 && s[13] == 101 && s[14] == 100 {
        proof {
            assert(s@ =~= seq![109u8, 101u8, 100u8, 105u8, 117u8, 109u8, 118u8, 105u8, 111u8, 108u8, 101u8, 116u8, 114u8, 101u8, 100u8]);
        }
        return Some((199u8, 21u8, 133u8));
    }
    if n == 12 && s[0] == 109 && s[1] == 105 && s[2] == 100 && s[3] == 110 && s[4] == 105 && s[5] == 103 && s[6] == 104 && s[7] == 116 && s[8] == 98 && s[9] == 108 && s[10] == 117 && s[11] == 101 {
        proof {
            assert(s@ =~= seq![109u8, 105u8, 100u8, 110u8, 105u8, 103u8, 104u8, 116u8, 98u8, 108u8, 117u8, 101u8]);
        }
        return Some((25u8, 25u8, 112u8));
    }
    if n == 9 && s[0] == 109 && s[1] == 105 && s[2] == 110 && s[3] == 116 && s[4] == 99 && s[5] == 114 && s[6] == 101 && s[7] == 97 && s[8] == 109 {
        proof {
            assert(s@ =~= seq![109u8, 105u8, 110u8, 116u8, 99u8, 114u8, 101u8, 97u8, 109u8]);
        }
        return Some((245u8, 255u8, 250u8));
    }
    if n == 9 && s[0] == 109 && s[1] == 105 && s[2] == 115 && s[3] == 116 && s[4] == 121 && s[5] == 114 && s[6] == 111 && s[7] == 115 && s[8] == 101 {
        proof {
            assert(s@ =~= seq![109u8, 105u8, 115u8, 116u8, 121u8, 114u8, 111u8, 115u8, 101u8]);
        }
        return Some((255u8, 228u8, 225u8));
    }
    if n == 8 && s[0] == 109 && s[1] == 111 && s[2] == 99 && s[3] == 99 && s[4] == 97 && s[5] == 115 && s[6] == 105 && s[7] == 110 {
        proof {
            assert(s@ =~= seq![109u8, 111u8, 99u8, 99u8, 97u8, 115u8, 105u8, 110u8]);
        }
        return Some((255u8, 228u8, 181u8));
    }
    None
}

/// The named colours starting with `n`.
#[verifier::opaque]
pub open spec fn spec_named_n(s: Seq<u8>) -> Option<(u8, u8, u8)> {
    if s == seq![110u8, 97u8, 118u8, 97u8, 106u8, 111u8, 119u8, 104u8, 105u8, 116u8, 101u8] {
        // navajowhite
        Some((255u8, 222u8, 173u8))
    } else
    if s == seq![110u8, 97u8, 118u8, 121u8] {
        // navy
        Some((0u8, 0u8, 128u8))
    } else
    {
        None
    }
}

/// Looks up a name starting with `n`.
fn named_n(s: &[u8]) -> (r: Option<(u8, u8, u8)>)
    ensures
        r == spec_named_n(s@),
{
    proof {
        reveal(spec_named_n);
    }
    let n = s.len();
    if n == 11 && s[0] == 110 && s[1] == 97 && s[2] == 118 && s[3] == 97 && s[4] == 106 && s[5] == 111 && s[6] == 119 && s[7] == 104 && s[8] == 105 && s[9] == 116 && s[10] == 101 {
        proof {
            assert(s@ =~= seq![110u8, 97u8, 118u8, 97u8, 106u8, 111u8, 119u8, 104u8, 105u8, 116u8, 101u8]);
        }
        return Some((255u8, 222u8, 173u8));
    }
    if n == 4 && s[0] == 110 && s[1] == 97 && s[2] == 118 && s[3] == 121 {
        proof {
            assert(s@ =~= seq![110u8, 97u8, 118u8, 121u8]);
        }
        return Some((0u8, 0u8, 128u8));
    }
    None
}

/// The named colours starting with `o`.
#[verifier::opaque]
pub open spec fn spec_named_o(s: Seq<u8>) -> Option<(u8, u8, u8)> {
    if s == seq![111u8, 108u8, 100u8, 108u8, 97u8, 99u8, 101u8] {
        // oldlace
        Some((253u8, 245u8, 230u8))
    } else
    if s == seq![111u8, 108u8, 105u8, 118u8, 101u8] {
        // olive
        Some((128u8, 128u8, 0u8))
    } else
    if s == seq![111u8, 108u8, 105u8, 118u8, 101u8, 100u8, 114u8, 97u8, 98u8] {
        // olivedrab
        Some((107u8, 142u8, 35u8))
    } else
    if s == seq![111u8, 114u8, 97u8, 110u8, 103u8, 101u8] {
        // orange
        Some((255u8, 165u8, 0u8))
    } else
    if s == seq![111u8, 114u8, 97u8, 110u8, 103u8, 101u8, 114u8, 101u8, 100u8] {
        // orangered
        Some((255u8, 69u8, 0u8))
    } else
    if s == seq![111u8, 114u8, 99u8, 104u8, 105u8, 100u8] {
        // orchid
        Some((218u8, 112u8, 214u8))
    } else
    {
        None
    }
}

/// Looks up a name starting with `o`.
fn named_o(s: &[u8]) -> (r: Option<(u8, u8, u8)>)
    ensures
        r == spec_named_o(s@),
{
    proof {
        reveal(spec_named_o);
    }
    let n = s.len();
    if n == 7 && s[0] == 111 && s[1] == 108 && s[2] == 100 && s[3] == 108 && s[4] == 97 && s[5] == 99 && s[6] == 101 {
        proof {
            assert(s@ =~= seq![111u8, 108u8, 100u8, 108u8, 97u8, 99u8, 101u8]);
        }
        return Some((253u8, 245u8, 230u8));
    }
    if n == 5 && s[0] == 111 && s[1] == 108 && s[2] == 105 && s[3] == 118 && s[4] == 101 {
        proof {
            assert(s@ =~= seq![111u8, 108u8, 105u8, 118u8, 101u8]);
        }
        return Some((128u8, 128u8, 0u8));
    }
    if n == 9 && s[0] == 111 && s[1] == 108 && s[2] == 105 && s[3] == 118 && s[4] == 101 && s[5] == 100 && s[6] == 114 && s[7] == 97 && s[8] == 98 {
        proof {
            assert(s@ =~= seq![111u8, 108u8, 105u8, 118u8, 101u8, 100u8, 114u8, 97u8, 98u8]);
        }
        return Some((107u8, 142u8, 35u8));
    }
    if n == 6 && s[0] == 111 && s[1] == 114 && s[2] == 97 && s[3] == 110 && s[4] == 103 && s[5] == 101 {
        proof {
            assert(s@ =~= seq![111u8, 114u8, 97u8, 110u8, 103u8, 101u8]);
        }
        return Some((255u8, 165u8, 0u8));
    }
    if n == 9 && s[0] == 111 && s[1] == 114 && s[2] == 97 && s[3] == 110 && s[4] == 103 && s[5] == 101 && s[6] == 114 && s[7] == 101 && s[8] == 100 {
        proof {
            assert(s@ =~= seq![111u8, 114u8, 97u8, 110u8, 103u8, 101u8, 114u8, 101u8, 100u8]);
        }
        return Some((255u8, 69u8, 0u8));
    }
    if n == 6 && s[0] == 111 && s[1] == 114 && s[2] == 99 && s[3] == 104 && s[4] == 105 && s[5] == 100 {
        proof {
            assert(s@ =~= seq![111u8, 114u8, 99u8, 104u8, 105u8, 100u8]);
        }
        return Some((218u8, 112u8, 214u8));
    }
    None
}

/// The named colours starting with `p`.
#[verifier::opaque]
pub open spec fn spec_named_p(s: Seq<u8>) -> Option<(u8, u8, u8)> {
    if s == seq![112u8, 97u8, 108u8, 101u8, 103u8, 111u8, 108u8, 100u8, 101u8, 110u8, 114u8, 111u8, 100u8] {
        // palegoldenrod
        Some((238u8, 232u8, 170u8))
    } else
    if s == seq![112u8, 97u8, 108u8, 101u8, 103u8, 114u8, 101u8, 101u8, 110u8] {
        // palegreen
        Some((152u8, 251u8, 152u8))
    } else
    if s == seq![112u8, 97u8, 108u8, 101u8, 116u8, 117u8, 114u8, 113u8, 117u8, 111u8, 105u8, 115u8, 101u8] {
        // paleturquoise
        Some((175u8, 238u8, 238u8))
    } else
    if s == seq![112u8, 97u8, 108u8, 101u8, 118u8, 105u8, 111u8, 108u8, 101u8, 116u8, 114u8, 101u8, 100u8] {
        // palevioletred
        Some((219u8, 112u8, 147u8))
    } else
    if s == seq![112u8, 97u8, 112u8, 97u8, 121u8, 97u8, 119u8, 104u8, 105u8, 112u8] {
        // papayawhip
        Some((255u8, 239u8, 213u8))
    } else
    if s == seq![112u8, 101u8, 97u8, 99u8, 104u8, 112u8, 117u8, 102u8, 102u8] {
        // peachpuff
        Some((255u8, 218u8, 185u8))
    } else
    if s == seq![112u8, 101u8, 114u8, 117u8] {
        // peru
        Some((205u8, 133u8, 63u8))
    } else
    if s == seq![112u8, 105u8, 110u8, 107u8] {
        // pink
        Some((255u8, 192u8, 203u8))
    } else
    if s == seq![112u8, 108u8, 117u8, 109u8] {
        // plum
        Some((221u8, 160u8, 221u8))
    } else
    if s == seq![112u8, 111u8, 119u8, 100u8, 101u8, 114u8, 98u8, 108u8, 117u8, 101u8] {
        // powderblue
        Some((176u8, 224u8, 230u8))
    } else
    if s == seq![112u8, 117u8, 114u8, 112u8, 108u8, 101u8] {
        // purple
        Some((128u8, 0u8, 128u8))
    } else
    {
        None
    }
}

/// Looks up a name starting with `p`.
fn named_p(s: &[u8]) -> (r: Option<(u8, u8, u8)>)
    ensures
        r == spec_named_p(s@),
{
    proof {
        reveal(spec_named_p);
    }
    let n = s.len();
    if n == 13 && s[0] == 112 && s[1] == 97 && s[2] == 108 && s[3] == 101 && s[4] == 103 && s[5] == 111 && s[6] == 108 && s[7] == 100 && s[8] == 101 && s[9] == 110 && s[10] == 114 && s[11] == 111 && s[12] == 100 {
        proof {
            assert(s@ =~= seq![112u8, 97u8, 108u8, 101u8, 103u8, 111u8, 108u8, 100u8, 101u8, 110u8, 114u8, 111u8, 100u8]);
        }
        return Some((238u8, 232u8, 170u8));
    }
    if n == 9 && s[0] == 112 && s[1] == 97 && s[2] == 108 && s[3] == 101 && s[4] == 103 && s[5] == 114 && s[6] == 101 && s[7] == 101 && s[8] == 110 {
        proof {
            assert(s@ =~= seq![112u8, 97u8, 108u8, 101u8, 103u8, 114u8, 101u8, 101u8, 110u8]);
        }
        return Some((152u8, 251u8, 152u8));
    }
    if n == 13 && s[0] == 112 && s[1] == 97 && s[2] == 108 && s[3] == 101 && s[4] == 116 && s[5] == 117 && s[6] == 114 && s[7] == 113 && s[8] == 117 && s[9] == 111 && s[10] == 105 && s[11] == 115 && s[12] == 101 {
        proof {
            assert(s@ =~= seq![112u8, 97u8, 108u8, 101u8, 116u8, 117u8, 114u8, 113u8, 117u8, 111u8, 105u8, 115u8, 101u8]);
        }
        return Some((175u8, 238u8, 238u8));
    }
    if n == 13 && s[0] == 112 && s[1] == 97 && s[2] == 108 && s[3] == 101 && s[4] == 118 && s[5] == 105 && s[6] == 111 && s[7] == 108 && s[8] == 101 && s[9] == 116 && s[10] == 114 && s[11] == 101 && s[12] == 100 {
        proof {
            assert(s@ =~= seq![112u8, 97u8, 108u8, 101u8, 118u8, 105u8, 111u8, 108u8, 101u8, 116u8, 114u8, 101u8, 100u8]);
        }
        return Some((219u8, 112u8, 147u8));
    }
    if n == 10 && s[0] == 112 && s[1] == 97 && s[2] == 112 && s[3] == 97 && s[4] == 121 && s[5] == 97 && s[6] == 119 && s[7] == 104 && s[8] == 105 && s[9] == 112 {
        proof {
            assert(s@ =~= seq![112u8, 97u8, 112u8, 97u8, 121u8, 97u8, 119u8, 104u8, 105u8, 112u8]);
        }
        return Some((255u8, 239u8, 213u8));
    }
    if n == 9 && s[0] == 112 && s[1] == 101 && s[2] == 97 && s[3] == 99 && s[4] == 104 && s[5] == 112 && s[6] == 117 && s[7] == 102 && s[8] == 102 {
        proof {
            assert(s@ =~= seq![112u8, 101u8, 97u8, 99u8, 104u8, 112u8, 117u8, 102u8, 102u8]);
        }
        return Some((255u8, 218u8, 185u8));
    }
    if n == 4 && s[0] == 112 && s[1] == 101 && s[2] == 114 && s[3] == 117 {
        proof {
            assert(s@ =~= seq![112u8, 101u8, 114u8, 117u8]);
        }
        return Some((205u8, 133u8, 63u8));
    }
    if n == 4 && s[0] == 112 && s[1] == 105 && s[2] == 110 && s[3] == 107 {
        proof {
            assert(s@ =~= seq![112u8, 105u8, 110u8, 107u8]);
        }
        return Some((255u8, 192u8, 203u8));
    }
    if n == 4 && s[0] == 112 && s[1] == 108 && s[2] == 117 && s[3] == 109 {
        proof {
            assert(s@ =~= seq![112u8, 108u8, 117u8, 109u8]);
        }
        return Some((221u8, 160u8, 221u8));
    }
    if n == 10 && s[0] == 112 && s[1] == 111 && s[2] == 119 && s[3] == 100 && s[4] == 101 && s[5] == 114 && s[6] == 98 && s[7] == 108 && s[8] == 117 && s[9] == 101 {
        proof {
            assert(s@ =~= seq![112u8, 111u8, 119u8, 100u8, 101u8, 114u8, 98u8, 108u8, 117u8, 101u8]);
        }
        return Some((176u8, 224u8, 230u8));
    }
    if n == 6 && s[0] == 112 && s[1] == 117 && s[2] == 114 && s[3] == 112 && s[4] == 108 && s[5] == 101 {
        proof {
            assert(s@ =~= seq![112u8, 117u8, 114u8, 112u8, 108u8, 101u8]);
        }
        return Some((128u8, 0u8, 128u8));
    }
    None
}

/// The named colours starting with `r`.
#[verifier::opaque]
pub open spec fn spec_named_r(s: Seq<u8>) -> Option<(u8, u8, u8)> {
    if s == seq![114u8, 101u8, 98u8, 101u8, 99u8, 99u8, 97u8, 112u8, 117u8, 114u8, 112u8, 108u8, 101u8] {
        // rebeccapurple
        Some((102u8, 51u8, 153u8))
    } else
    if s == seq![114u8, 101u8, 100u8] {
        // red
        Some((255u8, 0u8, 0u8))
    } else
    if s == seq![114u8, 111u8, 115u8, 121u8, 98u8, 114u8, 111u8, 119u8, 110u8] {
        // rosybrown
        Some((188u8, 143u8, 143u8))
    } else
    if s == seq![114u8, 111u8, 121u8, 97u8, 108u8, 98u8, 108u8, 117u8, 101u8] {
        // royalblue
        Some((65u8, 105u8, 225u8))
    } else
    {
        None
    }
}

/// Looks up a name starting with `r`.
fn named_r(s: &[u8]) -> (r: Option<(u8, u8, u8)>)
    ensures
        r == spec_named_r(s@),
{
    proof {
        reveal(spec_named_r);
    }
    let n = s.len();
    if n == 13 && s[0] == 114 && s[1] == 101 && s[2] == 98 && s[3] == 101 && s[4] == 99 && s[5] == 99 && s[6] == 97 && s[7] == 112 && s[8] == 117 && s[9] == 114 && s[10] == 112 && s[11] == 108 && s[12] == 101 {
        proof {
            assert(s@ =~= seq![114u8, 101u8, 98u8, 101u8, 99u8, 99u8, 97u8, 112u8, 117u8, 114u8, 112u8, 108u8, 101u8]);
        }
        return Some((102u8, 51u8, 153u8));
    }
    if n == 3 && s[0] == 114 && s[1] == 101 && s[2] == 100 {
        proof {
            assert(s@ =~= seq![114u8, 101u8, 100u8]);
        }
        return Some((255u8, 0u8, 0u8));
    }
    if n == 9 && s[0] == 114 && s[1] == 111 && s[2] == 115 && s[3] == 121 && s[4] == 98 && s[5] == 114 && s[6] == 111 && s[7] == 119 && s[8] == 110 {
        proof {
            assert(s@ =~= seq![114u8, 111u8, 115u8, 121u8, 98u8, 114u8, 111u8, 119u8, 110u8]);
        }
        return Some((188u8, 143u8, 143u8));
    }
    if n == 9 && s[0] == 114 && s[1] == 111 && s[2] == 121 && s[3] == 97 && s[4] == 108 && s[5] == 98 && s[6] == 108 && s[7] == 117 && s[8] == 101 {
        proof {
            assert(s@ =~= seq![114u8, 111u8, 121u8, 97u8, 108u8, 98u8, 108u8, 117u8, 101u8]);
        }
        return Some((65u8, 105u8, 225u8));
    }
    None
}

/// The named colours starting with `s`.
#[verifier::opaque]
pub open spec fn spec_named_s(s: Seq<u8>) -> Option<(u8, u8, u8)> {
    if s == seq![115u8, 97u8, 100u8, 100u8, 108u8, 101u8, 98u8, 114u8, 111u8, 119u8, 110u8] {
        // saddlebrown
        Some((139u8, 69u8, 19u8))
    } else
    if s == seq![115u8, 97u8, 108u8, 109u8, 111u8, 110u8] {
        // salmon
        Some((250u8, 128u8, 114u8))
    } else
    if s == seq![115u8, 97u8, 110u8, 100u8, 121u8, 98u8, 114u8, 111u8, 119u8, 110u8] {
        // sandybrown
        Some((244u8, 164u8, 96u8))
    } else
    if s == seq![115u8, 101u8, 97u8, 103u8, 114u8, 101u8, 101u8, 110u8] {
        // seagreen
        Some((46u8, 139u8, 87u8))
    } else
    if s == seq![115u8, 101u8, 97u8, 115u8, 104u8, 101u8, 108u8, 108u8] {
        // seashell
        Some((255u8, 245u8, 238u8))
    } else
    if s == seq![115u8, 105u8, 101u8, 110u8, 110u8, 97u8] {
        // sienna
        Some((160u8, 82u8, 45u8))
    } else
    if s == seq![115u8, 105u8, 108u8, 118u8, 101u8, 114u8] {
        // silver
        Some((192u8, 192u8, 192u8))
    } else
    if s == seq![115u8, 107u8, 121u8, 98u8, 108u8, 117u8, 101u8] {
        // skyblue
        Some((135u8, 206u8, 235u8))
    } else
    if s == seq![115u8, 108u8, 97u8, 116u8, 101u8, 98u8, 108u8, 117u8, 101u8] {
        // slateblue
        Some((106u8, 90u8, 205u8))
    } else
    if s == seq![115u8, 108u8, 97u8, 116u8, 101u8, 103u8, 114u8, 97u8, 121u8] {
        // slategray
        Some((112u8, 128u8, 144u8))
    } else
    if s == seq![115u8, 108u8, 97u8, 116u8, 101u8, 103u8, 114u8, 101u8, 121u8] {
        // slategrey
        Some((112u8, 128u8, 144u8))
    } else
    if s == seq![115u8, 110u8, 111u8, 119u8] {
        // snow
        Some((255u8, 250u8, 250u8))
    } else
    if s == seq![115u8, 112u8, 114u8, 105u8, 110u8, 103u8, 103u8, 114u8, 101u8, 101u8, 110u8] {
        // springgreen
        Some((0u8, 255u8, 127u8))
    } else
    if s == seq![115u8, 116u8, 101u8, 101u8, 108u8, 98u8, 108u8, 117u8, 101u8] {
        // steelblue
        Some((70u8, 130u8, 180u8))
    } else
    {
        None
    }
}

/// Looks up a name starting with `s`.
fn named_s(s: &[u8]) -> (r: Option<(u8, u8, u8)>)
    ensures
        r == spec_named_s(s@),
{
    proof {
        reveal(spec_named_s);
    }
    let n = s.len();
    if n == 11 && s[0] == 115 && s[1] == 97 && s[2] == 100 && s[3] == 100 && s[4] == 108 && s[5] == 101 && s[6] == 98 && s[7] == 114 && s[8] == 111 && s[9] == 119 && s[10] == 110 {
        proof {
            assert(s@ =~= seq![115u8, 97u8, 100u8, 100u8, 108u8, 101u8, 98u8, 114u8, 111u8, 119u8, 110u8]);
        }
        return Some((139u8, 69u8, 19u8));
    }
    if n == 6 && s[0] == 115 && s[1] == 97 && s[2] == 108 && s[3] == 109 && s[4] == 111 && s[5] == 110 {
        proof {
            assert(s@ =~= seq![115u8, 97u8, 108u8, 109u8, 111u8, 110u8]);
        }
        return Some((250u8, 128u8, 114u8));
    }
    if n == 10 && s[0] == 115 && s[1] == 97 && s[2] == 110 && s[3] == 100 && s[4] == 121 && s[5] == 98 && s[6] == 114 && s[7] == 111 && s[8] == 119 && s[9] == 110 {
        proof {
            assert(s@ =~= seq![115u8, 97u8, 110u8, 100u8, 121u8, 98u8, 114u8, 111u8, 119u8, 110u8]);
        }
        return Some((244u8, 164u8, 96u8));
    }
    if n == 8 && s[0] == 115 && s[1] == 101 && s[2] == 97 && s[3] == 103 && s[4] == 114 && s[5] == 101 && s[6] == 101 && s[7] == 110 {
        proof {
            assert(s@ =~= seq![115u8, 101u8, 97u8, 103u8, 114u8, 101u8, 101u8, 110u8]);
        }
        return Some((46u8, 139u8, 87u8));
    }
    if n == 8 && s[0] == 115 && s[1] == 101 && s[2] == 97 && s[3] == 115 && s[4] == 104 && s[5] == 101 && s[6] == 108 && s[7] == 108 {
        proof {
            assert(s@ =~= seq![115u8, 101u8, 97u8, 115u8, 104u8, 101u8, 108u8, 108u8]);
        }
        return Some((255u8, 245u8, 238u8));
    }
    if n == 6 && s[0] == 115 && s[1] == 105 && s[2] == 101 && s[3] == 110 && s[4] == 110 && s[5] == 97 {
        proof {
            assert(s@ =~= seq![115u8, 105u8, 101u8, 110u8, 110u8, 97u8]);
        }
        return Some((160u8, 82u8, 45u8));
    }
    if n == 6 && s[0] == 115 && s[1] == 105 && s[2] == 108 && s[3] == 118 && s[4] == 101 && s[5] == 114 {
        proof {
            assert(s@ =~= seq![115u8, 105u8, 108u8, 118u8, 101u8, 114u8]);
        }
        return Some((192u8, 192u8, 192u8));
    }
    if n == 7 && s[0] == 115 && s[1] == 107 && s[2] == 121 && s[3] == 98 && s[4] == 108 && s[5] == 117 && s[6] == 101 {
        proof {
            assert(s@ =~= seq![115u8, 107u8, 121u8, 98u8, 108u8, 117u8, 101u8]);
        }
        return Some((135u8, 206u8, 235u8));
    }
    if n == 9 && s[0] == 115 && s[1] == 108 && s[2] == 97 && s[3] == 116 && s[4] == 101 && s[5] == 98 && s[6] == 108 && s[7] == 117 && s[8] == 101 {
        proof {
            assert(s@ =~= seq![115u8, 108u8, 97u8, 116u8, 101u8, 98u8, 108u8, 117u8, 101u8]);
        }
        return Some((106u8, 90u8, 205u8));
    }
    if n == 9 && s[0] == 115 && s[1] == 108 && s[2] == 97 && s[3] == 116 && s[4] == 101 && s[5] == 103 && s[6] == 114 && s[7] == 97 && s[8] == 121 {
        proof {
            assert(s@ =~= seq![115u8, 108u8, 97u8, 116u8, 101u8, 103u8, 114u8, 97u8, 121u8]);
        }
        return Some((112u8, 128u8, 144u8));
    }
    if n == 9 && s[0] == 115 && s[1] == 108 && s[2] == 97 && s[3] == 116 && s[4] == 101 && s[5] == 103 && s[6] == 114 && s[7] == 101 && s[8] == 121 {
        proof {
            assert(s@ =~= seq![115u8, 108u8, 97u8, 116u8, 101u8, 103u8, 114u8, 101u8, 121u8]);
        }
        return Some((112u8, 128u8, 144u8));
    }
    if n == 4 && s[0] == 115 && s[1] == 110 && s[2] == 111 && s[3] == 119 {
        proof {
            assert(s@ =~= seq![115u8, 110u8, 111u8, 119u8]);
        }
        return Some((255u8, 250u8, 250u8));
    }
    if n == 11 && s[0] == 115 && s[1] == 112 && s[2] == 114 && s[3] == 105 && s[4] == 110 && s[5] == 103 && s[6] == 103 && s[7] == 114 && s[8] == 101 && s[9] == 101 && s[10] == 110 {
        proof {
            assert(s@ =~= seq![115u8, 112u8, 114u8, 105u8, 110u8, 103u8, 103u8, 114u8, 101u8, 101u8, 110u8]);
        }
        return Some((0u8, 255u8, 127u8));
    }
    if n == 9 && s[0] == 115 && s[1] == 116 && s[2] == 101 && s[3] == 101 && s[4] == 108 && s[5] == 98 && s[6] == 108 && s[7] == 117 && s[8] == 101 {
        proof {
            assert(s@ =~= seq![115u8, 116u8, 101u8, 101u8, 108u8, 98u8, 108u8, 117u8, 101u8]);
        }
        return Some((70u8, 130u8, 180u8));
    }
    None
}

/// The named colours starting with `t`.
#[verifier::opaque]
pub open spec fn spec_named_t(s: Seq<u8>) -> Option<(u8, u8, u8)> {
    if s == seq![116u8, 97u8, 110u8] {
        // tan
        Some((210u8, 180u8, 140u8))
    } else
    if s == seq![116u8, 101u8, 97u8, 108u8] {
        // teal
        Some((0u8, 128u8, 128u8))
    } else
    if s == seq![116u8, 104u8, 105u8, 115u8, 116u8, 108u8, 101u8] {
        // thistle
        Some((216u8, 191u8, 216u8))
    } else
    if s == seq![116u8, 111u8, 109u8, 97u8, 116u8, 111u8] {
        // tomato
        Some((255u8, 99u8, 71u8))
    } else
    if s == seq![116u8, 117u8, 114u8, 113u8, 117u8, 111u8, 105u8, 115u8, 101u8] {
        // turquoise
        Some((64u8, 224u8, 208u8))
    } else
    {
        None
    }
}

/// Looks up a name starting with `t`.
fn named_t(s: &[u8]) -> (r: Option<(u8, u8, u8)>)
    ensures
        r == spec_named_t(s@),
{
    proof {
        reveal(spec_named_t);
    }
    let n = s.len();
    if n == 3 && s[0] == 116 && s[1] == 97 && s[2] == 110 {
        proof {
            assert(s@ =~= seq![116u8, 97u8, 110u8]);
        }
        return Some((210u8, 180u8, 140u8));
    }
    if n == 4 && s[0] == 116 && s[1] == 101 && s[2] == 97 && s[3] == 108 {
        proof {
            assert(s@ =~= seq![116u8, 101u8, 97u8, 108u8]);
        }
        return Some((0u8, 128u8, 128u8));
    }
    if n == 7 && s[0] == 116 && s[1] == 104 && s[2] == 105 && s[3] == 115 && s[4] == 116 && s[5] == 108 && s[6] == 101 {
        proof {
            assert(s@ =~= seq![116u8, 104u8, 105u8, 115u8, 116u8, 108u8, 101u8]);
        }
        return Some((216u8, 191u8, 216u8));
    }
    if n == 6 && s[0] == 116 && s[1] == 111 && s[2] == 109 && s[3] == 97 && s[4] == 116 && s[5] == 111 {
        proof {
            assert(s@ =~= seq![116u8, 111u8, 109u8, 97u8, 116u8, 111u8]);
        }
        return Some((255u8, 99u8, 71u8));
    }
    if n == 9 && s[0] == 116 && s[1] == 117 && s[2] == 114 && s[3] == 113 && s[4] == 117 && s[5] == 111 && s[6] == 105 && s[7] == 115 && s[8] == 101 {
        proof {
            assert(s@ =~= seq![116u8, 117u8, 114u8, 113u8, 117u8, 111u8, 105u8, 115u8, 101u8]);
        }
        return Some((64u8, 224u8, 208u8));
    }
    None
}

/// The named colours starting with `v`.
#[verifier::opaque]
pub open spec fn spec_named_v(s: Seq<u8>) -> Option<(u8, u8, u8)> {
    if s == seq![118u8, 105u8, 111u8, 108u8, 101u8, 116u8] {
        // violet
        Some((238u8, 130u8, 238u8))
    } else
    {
        None
    }
}

/// Looks up a name starting with `v`.
fn named_v(s: &[u8]) -> (r: Option<(u8, u8, u8)>)
    ensures
        r == spec_named_v(s@),
{
    proof {
        reveal(spec_named_v);
    }
    let n = s.len();
    if n == 6 && s[0] == 118 && s[1] == 105 && s[2] == 111 && s[3] == 108 && s[4] == 101 && s[5] == 116 {
        proof {
            assert(s@ =~= seq![118u8, 105u8, 111u8, 108u8, 101u8, 116u8]);
        }
        return Some((238u8, 130u8, 238u8));
    }
    None
}

/// The named colours starting with `w`.
#[verifier::opaque]
pub open spec fn spec_named_w(s: Seq<u8>) -> Option<(u8, u8, u8)> {
    if s == seq![119u8, 104u8, 101u8, 97u8, 116u8] {
        // wheat
        Some((245u8, 222u8, 179u8))
    } else
    if s == seq![119u8, 104u8, 105u8, 116u8, 101u8] {
        // white
        Some((255u8, 255u8, 255u8))
    } else
    if s == seq![119u8, 104u8, 105u8, 116u8, 101u8, 115u8, 109u8, 111u8, 107u8, 101u8] {
        // whitesmoke
        Some((245u8, 245u8, 245u8))
    } else
    {
        None
    }
}

/// Looks up a name starting with `w`.
fn named_w(s: &[u8]) -> (r: Option<(u8, u8, u8)>)
    ensures
        r == spec_named_w(s@),
{
    proof {
        reveal(spec_named_w);
    }
    let n = s.len();
    if n == 5 && s[0] == 119 && s[1] == 104 && s[2] == 101 && s[3] == 97 && s[4] == 116 {
        proof {
            assert(s@ =~= seq![119u8, 104u8, 101u8, 97u8, 116u8]);
        }
        return Some((245u8, 222u8, 179u8));
    }
    if n == 5 && s[0] == 119 && s[1] == 104 && s[2] == 105 && s[3] == 116 && s[4] == 101 {
        proof {
            assert(s@ =~= seq![119u8, 104u8, 105u8, 116u8, 101u8]);
        }
        return Some((255u8, 255u8, 255u8));
    }
    if n == 10 && s[0] == 119 && s[1] == 104 && s[2] == 105 && s[3] == 116 && s[4] == 101 && s[5] == 115 && s[6] == 109 && s[7] == 111 && s[8] == 107 && s[9] == 101 {
        proof {
            assert(s@ =~= seq![119u8, 104u8, 105u8, 116u8, 101u8, 115u8, 109u8, 111u8, 107u8, 101u8]);
        }
        return Some((245u8, 245u8, 245u8));
    }
    None
}

/// The named colours starting with `y`.
#[verifier::opaque]
pub open spec fn spec_named_y(s: Seq<u8>) -> Option<(u8, u8, u8)> {
    if s == seq![121u8, 101u8, 108u8, 108u8, 111u8, 119u8] {
        // yellow
        Some((255u8, 255u8, 0u8))
    } else
    if s == seq![121u8, 101u8, 108u8, 108u8, 111u8, 119u8, 103u8, 114u8, 101u8, 101u8, 110u8] {
        // yellowgreen
        Some((154u8, 205u8, 50u8))
    } else
    {
        None
    }
}

/// Looks up a name starting with `y`.
fn named_y(s: &[u8]) -> (r: Option<(u8, u8, u8)>)
    ensures
        r == spec_named_y(s@),
{
    proof {
        reveal(spec_named_y);
    }
    let n = s.len();
    if n == 6 && s[0] == 121 && s[1] == 101 && s[2] == 108 && s[3] == 108 && s[4] == 111 && s[5] == 119 {
        proof {
            assert(s@ =~= seq![121u8, 101u8, 108u8, 108u8, 111u8, 119u8]);
        }
        return Some((255u8, 255u8, 0u8));
    }
    if n == 11 && s[0] == 121 && s[1] == 101 && s[2] == 108 && s[3] == 108 && s[4] == 111 && s[5] == 119 && s[6] == 103 && s[7] == 114 && s[8] == 101 && s[9] == 101 && s[10] == 110 {
        proof {
            assert(s@ =~= seq![121u8, 101u8, 108u8, 108u8, 111u8, 119u8, 103u8, 114u8, 101u8, 101u8, 110u8]);
        }
        return Some((154u8, 205u8, 50u8));
    }
    None
}

/// What [`named_color`] returns: the RGB bytes of the named colour, or
/// `None` where `s` is not one of the lowercase CSS colour names.
#[verifier::opaque]
pub open spec fn spec_named_color(s: Seq<u8>) -> Option<(u8, u8, u8)> {
    if s.len() == 0 {
        None
    } else if s[0] == 97 {
        spec_named_a(s)
    } else if s[0] == 98 {
        spec_named_b(s)
    } else if s[0] == 99 {
        spec_named_c(s)
    } else if s[0] == 100 {
        spec_named_d(s)
    } else if s[0] == 102 {
        spec_named_f(s)
    } else if s[0] == 103 {
        spec_named_g(s)
    } else if s[0] == 104 {
        spec_named_h(s)
    } else if s[0] == 105 {
        spec_named_i(s)
    } else if s[0] == 107 {
        spec_named_k(s)
    } else if s[0] == 108 {
        spec_named_l(s)
    } else if s[0] == 109 {
        spec_named_m(s)
    } else if s[0] == 110 {
        spec_named_n(s)
    } else if s[0] == 111 {
        spec_named_o(s)
    } else if s[0] == 112 {
        spec_named_p(s)
    } else if s[0] == 114 {
        spec_named_r(s)
    } else if s[0] == 115 {
        spec_named_s(s)
    } else if s[0] == 116 {
        spec_named_t(s)
    } else if s[0] == 118 {
        spec_named_v(s)
    } else if s[0] == 119 {
        spec_named_w(s)
    } else if s[0] == 121 {
        spec_named_y(s)
    } else {
        None
    }
}

/// Looks up a lowercase colour name in the table.
pub fn named_color(s: &[u8]) -> (r: Option<(u8, u8, u8)>)
    ensures
        r == spec_named_color(s@),
{
    proof {
        reveal(spec_named_color);
    }
    if s.len() == 0 {
        return None;
    }
    let first = s[0];
    if first == 97 {
        return named_a(s);
    }
    if first == 98 {
        return named_b(s);
    }
    if first == 99 {
        return named_c(s);
    }
    if first == 100 {
        return named_d(s);
    }
    if first == 102 {
        return named_f(s);
    }
    if first == 103 {
        return named_g(s);
    }
    if first == 104 {
        return named_h(s);
    }
    if first == 105 {
        return named_i(s);
    }
    if first == 107 {
        return named_k(s);
    }
    if first == 108 {
        return named_l(s);
    }
    if first == 109 {
        return named_m(s);
    }
    if first == 110 {
        return named_n(s);
    }
    if first == 111 {
        return named_o(s);
    }
    if first == 112 {
        return named_p(s);
    }
    if first == 114 {
        return named_r(s);
    }
    if first == 115 {
        return named_s(s);
    }
    if first == 116 {
        return named_t(s);
    }
    if first == 118 {
        return named_v(s);
    }
    if first == 119 {
        return named_w(s);
    }
    if first == 121 {
        return named_y(s);
    }
    None
}

} // verus!
