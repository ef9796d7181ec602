//! The inverse diffusion matrix is the inverse of the forward one over the field. The proof
//! works row by row on integer linear forms: each product of the two tables differs from the
//! identity by multiples of the modulus, given here as explicit coefficients.
use vstd::prelude::*;
use vstd::arithmetic::div_mod::{lemma_fundamental_div_mod, lemma_mod_multiples_vanish, lemma_small_mod};
use crate::constants::{STATE_WIDTH, MDS, INV_MDS};
use crate::field::{P, is_felt};
use crate::permutation::{is_state, dot, mat_vec};

verus! {

/// A dot product over twelve positions, written out term by term.
proof fn lemma_dot12(row: Seq<u64>, s: Seq<u64>)
    ensures
        dot(row, s, 12) == row[0] * s[0] + row[1] * s[1] + row[2] * s[2] + row[3] * s[3]
            + row[4] * s[4] + row[5] * s[5] + row[6] * s[6] + row[7] * s[7] + row[8] * s[8]
            + row[9] * s[9] + row[10] * s[10] + row[11] * s[11],
{
    reveal_with_fuel(dot, 13);
}

/// An integer that differs from a canonical element by a multiple of the modulus reduces
/// to that element.
proof fn lemma_reduces_to(e: int, x: int, z: int)
    requires
        0 <= x < P,
        e == x + (P as int) * z,
    ensures
        e % (P as int) == x,
{
    lemma_mod_multiples_vanish(z, x, P as int);
    lemma_small_mod(x as nat, P as nat);
}

/// The rows of the forward diffusion matrix as linear forms.
proof fn lemma_mds_rows(v: Seq<u64>)
    ensures
        dot(MDS[0]@, v, 12) == 2108866337646019936 * v[0] + 11223275256334781131 * v[1] + 2318414738826783588 * v[2] + 11240468238955543594 * v[3] + 8007389560317667115 * v[4] + 11080831380224887131 * v[5] + 3922954383102346493 * v[6] + 17194066286743901609 * v[7] + 152620255842323114 * v[8] + 7203302445933022224 * v[9] + 17781531460838764471 * v[10] + 2306881200 * v[11],
        dot(MDS[1]@, v, 12) == 3368836954250922620 * v[0] + 5531382716338105518 * v[1] + 7747104620279034727 * v[2] + 14164487169476525880 * v[3] + 4653455932372793639 * v[4] + 5504123103633670518 * v[5] + 3376629427948045767 * v[6] + 1687083899297674997 * v[7] + 8324288417826065247 * v[8] + 17651364087632826504 * v[9] + 15568475755679636039 * v[10] + 4656488262337620150 * v[11],
        dot(MDS[2]@, v, 12) == 2560535215714666606 * v[0] + 10793518538122219186 * v[1] + 408467828146985886 * v[2] + 13894393744319723897 * v[3] + 17856013635663093677 * v[4] + 14510101432365346218 * v[5] + 12175743201430386993 * v[6] + 12012700097100374591 * v[7] + 976880602086740182 * v[8] + 3187015135043748111 * v[9] + 4630899319883688283 * v[10] + 17674195666610532297 * v[11],
        dot(MDS[3]@, v, 12) == 10940635879119829731 * v[0] + 9126204055164541072 * v[1] + 13441880452578323624 * v[2] + 13828699194559433302 * v[3] + 6245685172712904082 * v[4] + 3117562785727957263 * v[5] + 17389107632996288753 * v[6] + 3643151412418457029 * v[7] + 10484080975961167028 * v[8] + 4066673631745731889 * v[9] + 8847974898748751041 * v[10] + 9548808324754121113 * v[11],
        dot(MDS[4]@, v, 12) == 15656099696515372126 * v[0] + 309741777966979967 * v[1] + 16075523529922094036 * v[2] + 5384192144218250710 * v[3] + 15171244241641106028 * v[4] + 6660319859038124593 * v[5] + 6595450094003204814 * v[6] + 15330207556174961057 * v[7] + 2687301105226976975 * v[8] + 15907414358067140389 * v[9] + 2767130804164179683 * v[10] + 8135839249549115549 * v[11],
        dot(MDS[5]@, v, 12) == 14687393836444508153 * v[0] + 8122848807512458890 * v[1] + 16998154830503301252 * v[2] + 2904046703764323264 * v[3] + 11170142989407566484 * v[4] + 5448553946207765015 * v[5] + 9766047029091333225 * v[6] + 3852354853341479440 * v[7] + 14577128274897891003 * v[8] + 11994931371916133447 * v[9] + 8299269445020599466 * v[10] + 2859592328380146288 * v[11],
        dot(MDS[6]@, v, 12) == 4920761474064525703 * v[0] + 13379538658122003618 * v[1] + 3169184545474588182 * v[2] + 15753261541491539618 * v[3] + 622292315133191494 * v[4] + 14052907820095169428 * v[5] + 5159844729950547044 * v[6] + 17439978194716087321 * v[7] + 9945483003842285313 * v[8] + 13647273880020281344 * v[9] + 14750994260825376 * v[10] + 12575187259316461486 * v[11],
        dot(MDS[7]@, v, 12) == 3371852905554824605 * v[0] + 8886257005679683950 * v[1] + 15677115160380392279 * v[2] + 13242906482047961505 * v[3] + 12149996307978507817 * v[4] + 1427861135554592284 * v[5] + 4033726302273030373 * v[6] + 14761176804905342155 * v[7] + 11465247508084706095 * v[8] + 12112647677590318112 * v[9] + 17343938135425110721 * v[10] + 14654483060427620352 * v[11],
        dot(MDS[8]@, v, 12) == 5421794552262605237 * v[0] + 14201164512563303484 * v[1] + 5290621264363227639 * v[2] + 1020180205893205576 * v[3] + 14311345105258400438 * v[4] + 7828111500457301560 * v[5] + 9436759291445548340 * v[6] + 5716067521736967068 * v[7] + 15357555109169671716 * v[8] + 4131452666376493252 * v[9] + 16785275933585465720 * v[10] + 11180136753375315897 * v[11],
        dot(MDS[9]@, v, 12) == 10451661389735482801 * v[0] + 12128852772276583847 * v[1] + 10630876800354432923 * v[2] + 6884824371838330777 * v[3] + 16413552665026570512 * v[4] + 13637837753341196082 * v[5] + 2558124068257217718 * v[6] + 4327919242598628564 * v[7] + 4236040195908057312 * v[8] + 2081029262044280559 * v[9] + 2047510589162918469 * v[10] + 6835491236529222042 * v[11],
        dot(MDS[10]@, v, 12) == 5675273097893923172 * v[0] + 8120839782755215647 * v[1] + 9856415804450870143 * v[2] + 1960632704307471239 * v[3] + 15279057263127523057 * v[4] + 17999325337309257121 * v[5] + 72970456904683065 * v[6] + 8899624805082057509 * v[7] + 16980481565524365258 * v[8] + 6412696708929498357 * v[9] + 13917768671775544479 * v[10] + 5505378218427096880 * v[11],
        dot(MDS[11]@, v, 12) == 10318314766641004576 * v[0] + 17320192463105632563 * v[1] + 11540812969169097044 * v[2] + 7270556942018024148 * v[3] + 4755326086930560682 * v[4] + 2193604418377108959 * v[5] + 11681945506511803967 * v[6] + 8000243866012209465 * v[7] + 6746478642521594042 * v[8] + 12096331252283646217 * v[9] + 13208137848575217268 * v[10] + 5548519654341606996 * v[11],
{
    lemma_dot12(MDS[0]@, v);
    lemma_dot12(MDS[1]@, v);
    lemma_dot12(MDS[2]@, v);
    lemma_dot12(MDS[3]@, v);
    lemma_dot12(MDS[4]@, v);
    lemma_dot12(MDS[5]@, v);
    lemma_dot12(MDS[6]@, v);
    lemma_dot12(MDS[7]@, v);
    lemma_dot12(MDS[8]@, v);
    lemma_dot12(MDS[9]@, v);
    lemma_dot12(MDS[10]@, v);
    lemma_dot12(MDS[11]@, v);
}

/// Row `r` of the inverse diffusion matrix recovers `v_r` from the forward products
/// `d_i = MDS[i] * v` reduced to `w_i = d_i - p * q_i`: the integer identity
/// `INV_MDS[r] * d = v_r + p * x` holds with the row's own linear form `x` in `v`.
/// One lemma per row.
proof fn lemma_inv_mds_row0(v0: int, v1: int, v2: int, v3: int, v4: int, v5: int, v6: int, v7: int, v8: int, v9: int, v10: int, v11: int, d0: int, d1: int, d2: int, d3: int, d4: int, d5: int, d6: int, d7: int, d8: int, d9: int, d10: int, d11: int, w0: int, w1: int, w2: int, w3: int, w4: int, w5: int, w6: int, w7: int, w8: int, w9: int, w10: int, w11: int, q0: int, q1: int, q2: int, q3: int, q4: int, q5: int, q6: int, q7: int, q8: int, q9: int, q10: int, q11: int)
    requires
        0 <= v0 < P,
        d0 == 2108866337646019936 * v0 + 11223275256334781131 * v1 + 2318414738826783588 * v2 + 11240468238955543594 * v3 + 8007389560317667115 * v4 + 11080831380224887131 * v5 + 3922954383102346493 * v6 + 17194066286743901609 * v7 + 152620255842323114 * v8 + 7203302445933022224 * v9 + 17781531460838764471 * v10 + 2306881200 * v11,
        d1 == 3368836954250922620 * v0 + 5531382716338105518 * v1 + 7747104620279034727 * v2 + 14164487169476525880 * v3 + 4653455932372793639 * v4 + 5504123103633670518 * v5 + 3376629427948045767 * v6 + 1687083899297674997 * v7 + 8324288417826065247 * v8 + 17651364087632826504 * v9 + 15568475755679636039 * v10 + 4656488262337620150 * v11,
        d2 == 2560535215714666606 * v0 + 10793518538122219186 * v1 + 408467828146985886 * v2 + 13894393744319723897 * v3 + 17856013635663093677 * v4 + 14510101432365346218 * v5 + 12175743201430386993 * v6 + 12012700097100374591 * v7 + 976880602086740182 * v8 + 3187015135043748111 * v9 + 4630899319883688283 * v10 + 17674195666610532297 * v11,
        d3 == 10940635879119829731 * v0 + 9126204055164541072 * v1 + 13441880452578323624 * v2 + 13828699194559433302 * v3 + 6245685172712904082 * v4 + 3117562785727957263 * v5 + 17389107632996288753 * v6 + 3643151412418457029 * v7 + 10484080975961167028 * v8 + 4066673631745731889 * v9 + 8847974898748751041 * v10 + 9548808324754121113 * v11,
        d4 == 15656099696515372126 * v0 + 309741777966979967 * v1 + 16075523529922094036 * v2 + 5384192144218250710 * v3 + 15171244241641106028 * v4 + 6660319859038124593 * v5 + 6595450094003204814 * v6 + 15330207556174961057 * v7 + 2687301105226976975 * v8 + 15907414358067140389 * v9 + 2767130804164179683 * v10 + 8135839249549115549 * v11,
        d5 == 14687393836444508153 * v0 + 8122848807512458890 * v1 + 16998154830503301252 * v2 + 2904046703764323264 * v3 + 11170142989407566484 * v4 + 5448553946207765015 * v5 + 9766047029091333225 * v6 + 3852354853341479440 * v7 + 14577128274897891003 * v8 + 11994931371916133447 * v9 + 8299269445020599466 * v10 + 2859592328380146288 * v11,
        d6 == 4920761474064525703 * v0 + 13379538658122003618 * v1 + 3169184545474588182 * v2 + 15753261541491539618 * v3 + 622292315133191494 * v4 + 14052907820095169428 * v5 + 5159844729950547044 * v6 + 17439978194716087321 * v7 + 9945483003842285313 * v8 + 13647273880020281344 * v9 + 14750994260825376 * v10 + 12575187259316461486 * v11,
        d7 == 3371852905554824605 * v0 + 8886257005679683950 * v1 + 15677115160380392279 * v2 + 13242906482047961505 * v3 + 12149996307978507817 * v4 + 1427861135554592284 * v5 + 4033726302273030373 * v6 + 14761176804905342155 * v7 + 11465247508084706095 * v8 + 12112647677590318112 * v9 + 17343938135425110721 * v10 + 14654483060427620352 * v11,
        d8 == 5421794552262605237 * v0 + 14201164512563303484 * v1 + 5290621264363227639 * v2 + 1020180205893205576 * v3 + 14311345105258400438 * v4 + 7828111500457301560 * v5 + 9436759291445548340 * v6 + 5716067521736967068 * v7 + 15357555109169671716 * v8 + 4131452666376493252 * v9 + 16785275933585465720 * v10 + 11180136753375315897 * v11,
        d9 == 10451661389735482801 * v0 + 12128852772276583847 * v1 + 10630876800354432923 * v2 + 6884824371838330777 * v3 + 16413552665026570512 * v4 + 13637837753341196082 * v5 + 2558124068257217718 * v6 + 4327919242598628564 * v7 + 4236040195908057312 * v8 + 2081029262044280559 * v9 + 2047510589162918469 * v10 + 6835491236529222042 * v11,
        d10 == 5675273097893923172 * v0 + 8120839782755215647 * v1 + 9856415804450870143 * v2 + 1960632704307471239 * v3 + 15279057263127523057 * v4 + 17999325337309257121 * v5 + 72970456904683065 * v6 + 8899624805082057509 * v7 + 16980481565524365258 * v8 + 6412696708929498357 * v9 + 13917768671775544479 * v10 + 5505378218427096880 * v11,
        d11 == 10318314766641004576 * v0 + 17320192463105632563 * v1 + 11540812969169097044 * v2 + 7270556942018024148 * v3 + 4755326086930560682 * v4 + 2193604418377108959 * v5 + 11681945506511803967 * v6 + 8000243866012209465 * v7 + 6746478642521594042 * v8 + 12096331252283646217 * v9 + 13208137848575217268 * v10 + 5548519654341606996 * v11,
        w0 == d0 - (P as int) * q0,
        w1 == d1 - (P as int) * q1,
        w2 == d2 - (P as int) * q2,
        w3 == d3 - (P as int) * q3,
        w4 == d4 - (P as int) * q4,
        w5 == d5 - (P as int) * q5,
        w6 == d6 - (P as int) * q6,
        w7 == d7 - (P as int) * q7,
        w8 == d8 - (P as int) * q8,
        w9 == d9 - (P as int) * q9,
        w10 == d10 - (P as int) * q10,
        w11 == d11 - (P as int) * q11,
    ensures
        (1025714968950054217 * w0 + 2820417286206414279 * w1 + 4993698564949207576 * w2 + 12970218763715480197 * w3 + 15096702659601816313 * w4 + 5737881372597660297 * w5 + 13327263231927089804 * w6 + 4564252978131632277 * w7 + 16119054824480892382 * w8 + 6613927186172915989 * w9 + 6454498710731601655 * w10 + 2510089799608156620 * w11) % (P as int) == v0,
{
    let x = 42663656509394234973 * v0 + 47409819015517690348 * v1 + 48940995912722704786 * v2 + 41278185888006861289 * v3 + 54111967634479253038 * v4 + 43555891273889971025 * v5 + 40196686577133026404 * v6 + 47773293977228989612 * v7 + 47470819563397035502 * v8 + 44673839997506990819 * v9 + 42060433578388766041 * v10 + 47370925691574253596 * v11;
    let y = 1025714968950054217 * q0 + 2820417286206414279 * q1 + 4993698564949207576 * q2 + 12970218763715480197 * q3 + 15096702659601816313 * q4 + 5737881372597660297 * q5 + 13327263231927089804 * q6 + 4564252978131632277 * q7 + 16119054824480892382 * q8 + 6613927186172915989 * q9 + 6454498710731601655 * q10 + 2510089799608156620 * q11;
    assert(1025714968950054217 * d0 + 2820417286206414279 * d1 + 4993698564949207576 * d2 + 12970218763715480197 * d3 + 15096702659601816313 * d4 + 5737881372597660297 * d5 + 13327263231927089804 * d6 + 4564252978131632277 * d7 + 16119054824480892382 * d8 + 6613927186172915989 * d9 + 6454498710731601655 * d10 + 2510089799608156620 * d11 == v0 + (P as int) * x);
    lemma_reduces_to(1025714968950054217 * w0 + 2820417286206414279 * w1 + 4993698564949207576 * w2 + 12970218763715480197 * w3 + 15096702659601816313 * w4 + 5737881372597660297 * w5 + 13327263231927089804 * w6 + 4564252978131632277 * w7 + 16119054824480892382 * w8 + 6613927186172915989 * w9 + 6454498710731601655 * w10 + 2510089799608156620 * w11, v0, x - y);
}

proof fn lemma_inv_mds_row1(v0: int, v1: int, v2: int, v3: int, v4: int, v5: int, v6: int, v7: int, v8: int, v9: int, v10: int, v11: int, d0: int, d1: int, d2: int, d3: int, d4: int, d5: int, d6: int, d7: int, d8: int, d9: int, d10: int, d11: int, w0: int, w1: int, w2: int, w3: int, w4: int, w5: int, w6: int, w7: int, w8: int, w9: int, w10: int, w11: int, q0: int, q1: int, q2: int, q3: int, q4: int, q5: int, q6: int, q7: int, q8: int, q9: int, q10: int, q11: int)
    requires
        0 <= v1 < P,
        d0 == 2108866337646019936 * v0 + 11223275256334781131 * v1 + 2318414738826783588 * v2 + 11240468238955543594 * v3 + 8007389560317667115 * v4 + 11080831380224887131 * v5 + 3922954383102346493 * v6 + 17194066286743901609 * v7 + 152620255842323114 * v8 + 7203302445933022224 * v9 + 17781531460838764471 * v10 + 2306881200 * v11,
        d1 == 3368836954250922620 * v0 + 5531382716338105518 * v1 + 7747104620279034727 * v2 + 14164487169476525880 * v3 + 4653455932372793639 * v4 + 5504123103633670518 * v5 + 3376629427948045767 * v6 + 1687083899297674997 * v7 + 8324288417826065247 * v8 + 17651364087632826504 * v9 + 15568475755679636039 * v10 + 4656488262337620150 * v11,
        d2 == 2560535215714666606 * v0 + 10793518538122219186 * v1 + 408467828146985886 * v2 + 13894393744319723897 * v3 + 17856013635663093677 * v4 + 14510101432365346218 * v5 + 12175743201430386993 * v6 + 12012700097100374591 * v7 + 976880602086740182 * v8 + 3187015135043748111 * v9 + 4630899319883688283 * v10 + 17674195666610532297 * v11,
        d3 == 10940635879119829731 * v0 + 9126204055164541072 * v1 + 13441880452578323624 * v2 + 13828699194559433302 * v3 + 6245685172712904082 * v4 + 3117562785727957263 * v5 + 17389107632996288753 * v6 + 3643151412418457029 * v7 + 10484080975961167028 * v8 + 4066673631745731889 * v9 + 8847974898748751041 * v10 + 9548808324754121113 * v11,
        d4 == 15656099696515372126 * v0 + 309741777966979967 * v1 + 16075523529922094036 * v2 + 5384192144218250710 * v3 + 15171244241641106028 * v4 + 6660319859038124593 * v5 + 6595450094003204814 * v6 + 15330207556174961057 * v7 + 2687301105226976975 * v8 + 15907414358067140389 * v9 + 2767130804164179683 * v10 + 8135839249549115549 * v11,
        d5 == 14687393836444508153 * v0 + 8122848807512458890 * v1 + 16998154830503301252 * v2 + 2904046703764323264 * v3 + 11170142989407566484 * v4 + 5448553946207765015 * v5 + 9766047029091333225 * v6 + 3852354853341479440 * v7 + 14577128274897891003 * v8 + 11994931371916133447 * v9 + 8299269445020599466 * v10 + 2859592328380146288 * v11,
        d6 == 4920761474064525703 * v0 + 13379538658122003618 * v1 + 3169184545474588182 * v2 + 15753261541491539618 * v3 + 622292315133191494 * v4 + 14052907820095169428 * v5 + 5159844729950547044 * v6 + 17439978194716087321 * v7 + 9945483003842285313 * v8 + 13647273880020281344 * v9 + 14750994260825376 * v10 + 12575187259316461486 * v11,
        d7 == 3371852905554824605 * v0 + 8886257005679683950 * v1 + 15677115160380392279 * v2 + 13242906482047961505 * v3 + 12149996307978507817 * v4 + 1427861135554592284 * v5 + 4033726302273030373 * v6 + 14761176804905342155 * v7 + 11465247508084706095 * v8 + 12112647677590318112 * v9 + 17343938135425110721 * v10 + 14654483060427620352 * v11,
        d8 == 5421794552262605237 * v0 + 14201164512563303484 * v1 + 5290621264363227639 * v2 + 1020180205893205576 * v3 + 14311345105258400438 * v4 + 7828111500457301560 * v5 + 9436759291445548340 * v6 + 5716067521736967068 * v7 + 15357555109169671716 * v8 + 4131452666376493252 * v9 + 16785275933585465720 * v10 + 11180136753375315897 * v11,
        d9 == 10451661389735482801 * v0 + 12128852772276583847 * v1 + 10630876800354432923 * v2 + 6884824371838330777 * v3 + 16413552665026570512 * v4 + 13637837753341196082 * v5 + 2558124068257217718 * v6 + 4327919242598628564 * v7 + 4236040195908057312 * v8 + 2081029262044280559 * v9 + 2047510589162918469 * v10 + 6835491236529222042 * v11,
        d10 == 5675273097893923172 * v0 + 8120839782755215647 * v1 + 9856415804450870143 * v2 + 1960632704307471239 * v3 + 15279057263127523057 * v4 + 17999325337309257121 * v5 + 72970456904683065 * v6 + 8899624805082057509 * v7 + 16980481565524365258 * v8 + 6412696708929498357 * v9 + 13917768671775544479 * v10 + 5505378218427096880 * v11,
        d11 == 10318314766641004576 * v0 + 17320192463105632563 * v1 + 11540812969169097044 * v2 + 7270556942018024148 * v3 + 4755326086930560682 * v4 + 2193604418377108959 * v5 + 11681945506511803967 * v6 + 8000243866012209465 * v7 + 6746478642521594042 * v8 + 12096331252283646217 * v9 + 13208137848575217268 * v10 + 5548519654341606996 * v11,
        w0 == d0 - (P as int) * q0,
        w1 == d1 - (P as int) * q1,
        w2 == d2 - (P as int) * q2,
        w3 == d3 - (P as int) * q3,
        w4 == d4 - (P as int) * q4,
        w5 == d5 - (P as int) * q5,
        w6 == d6 - (P as int) * q6,
        w7 == d7 - (P as int) * q7,
        w8 == d8 - (P as int) * q8,
        w9 == d9 - (P as int) * q9,
        w10 == d10 - (P as int) * q10,
        w11 == d11 - (P as int) * q11,
    ensures
        (14311337779007263575 * w0 + 10306799626523962951 * w1 + 7776331823117795156 * w2 + 4922212921326569206 * w3 + 8669179866856828412 * w4 + 936244772485171410 * w5 + 4077406078785759791 * w6 + 2938383611938168107 * w7 + 16650590241171797614 * w8 + 16578411244849432284 * w9 + 17600191004694808340 * w10 + 5913375445729949081 * w11) % (P as int) == v1,
{
    let x = 40254507454620220930 * v0 + 60732954942115428009 * v1 + 48934711258912487146 * v2 + 45760899133894711747 * v3 + 71547142114321489749 * v4 + 62559946532678241718 * v5 + 34712560398262954350 * v6 + 54029374696473325525 * v7 + 50039252162995248759 * v8 + 46505546734914121301 * v9 + 65798775412259458051 * v10 + 44948950619034857580 * v11;
    let y = 14311337779007263575 * q0 + 10306799626523962951 * q1 + 7776331823117795156 * q2 + 4922212921326569206 * q3 + 8669179866856828412 * q4 + 936244772485171410 * q5 + 4077406078785759791 * q6 + 2938383611938168107 * q7 + 16650590241171797614 * q8 + 16578411244849432284 * q9 + 17600191004694808340 * q10 + 5913375445729949081 * q11;
    assert(14311337779007263575 * d0 + 10306799626523962951 * d1 + 7776331823117795156 * d2 + 4922212921326569206 * d3 + 8669179866856828412 * d4 + 936244772485171410 * d5 + 4077406078785759791 * d6 + 2938383611938168107 * d7 + 16650590241171797614 * d8 + 16578411244849432284 * d9 + 17600191004694808340 * d10 + 5913375445729949081 * d11 == v1 + (P as int) * x);
    lemma_reduces_to(14311337779007263575 * w0 + 10306799626523962951 * w1 + 7776331823117795156 * w2 + 4922212921326569206 * w3 + 8669179866856828412 * w4 + 936244772485171410 * w5 + 4077406078785759791 * w6 + 2938383611938168107 * w7 + 16650590241171797614 * w8 + 16578411244849432284 * w9 + 17600191004694808340 * w10 + 5913375445729949081 * w11, v1, x - y);
}

proof fn lemma_inv_mds_row2(v0: int, v1: int, v2: int, v3: int, v4: int, v5: int, v6: int, v7: int, v8: int, v9: int, v10: int, v11: int, d0: int, d1: int, d2: int, d3: int, d4: int, d5: int, d6: int, d7: int, d8: int, d9: int, d10: int, d11: int, w0: int, w1: int, w2: int, w3: int, w4: int, w5: int, w6: int, w7: int, w8: int, w9: int, w10: int, w11: int, q0: int, q1: int, q2: int, q3: int, q4: int, q5: int, q6: int, q7: int, q8: int, q9: int, q10: int, q11: int)
    requires
        0 <= v2 < P,
        d0 == 2108866337646019936 * v0 + 11223275256334781131 * v1 + 2318414738826783588 * v2 + 11240468238955543594 * v3 + 8007389560317667115 * v4 + 11080831380224887131 * v5 + 3922954383102346493 * v6 + 17194066286743901609 * v7 + 152620255842323114 * v8 + 7203302445933022224 * v9 + 17781531460838764471 * v10 + 2306881200 * v11,
        d1 == 3368836954250922620 * v0 + 5531382716338105518 * v1 + 7747104620279034727 * v2 + 14164487169476525880 * v3 + 4653455932372793639 * v4 + 5504123103633670518 * v5 + 3376629427948045767 * v6 + 1687083899297674997 * v7 + 8324288417826065247 * v8 + 17651364087632826504 * v9 + 15568475755679636039 * v10 + 4656488262337620150 * v11,
        d2 == 2560535215714666606 * v0 + 10793518538122219186 * v1 + 408467828146985886 * v2 + 13894393744319723897 * v3 + 17856013635663093677 * v4 + 14510101432365346218 * v5 + 12175743201430386993 * v6 + 12012700097100374591 * v7 + 976880602086740182 * v8 + 3187015135043748111 * v9 + 4630899319883688283 * v10 + 17674195666610532297 * v11,
        d3 == 10940635879119829731 * v0 + 9126204055164541072 * v1 + 13441880452578323624 * v2 + 13828699194559433302 * v3 + 6245685172712904082 * v4 + 3117562785727957263 * v5 + 17389107632996288753 * v6 + 3643151412418457029 * v7 + 10484080975961167028 * v8 + 4066673631745731889 * v9 + 8847974898748751041 * v10 + 9548808324754121113 * v11,
        d4 == 15656099696515372126 * v0 + 309741777966979967 * v1 + 16075523529922094036 * v2 + 5384192144218250710 * v3 + 15171244241641106028 * v4 + 6660319859038124593 * v5 + 6595450094003204814 * v6 + 15330207556174961057 * v7 + 2687301105226976975 * v8 + 15907414358067140389 * v9 + 2767130804164179683 * v10 + 8135839249549115549 * v11,
        d5 == 14687393836444508153 * v0 + 8122848807512458890 * v1 + 16998154830503301252 * v2 + 2904046703764323264 * v3 + 11170142989407566484 * v4 + 5448553946207765015 * v5 + 9766047029091333225 * v6 + 3852354853341479440 * v7 + 14577128274897891003 * v8 + 11994931371916133447 * v9 + 8299269445020599466 * v10 + 2859592328380146288 * v11,
        d6 == 4920761474064525703 * v0 + 13379538658122003618 * v1 + 3169184545474588182 * v2 + 15753261541491539618 * v3 + 622292315133191494 * v4 + 14052907820095169428 * v5 + 5159844729950547044 * v6 + 17439978194716087321 * v7 + 9945483003842285313 * v8 + 13647273880020281344 * v9 + 14750994260825376 * v10 + 12575187259316461486 * v11,
        d7 == 3371852905554824605 * v0 + 8886257005679683950 * v1 + 15677115160380392279 * v2 + 13242906482047961505 * v3 + 12149996307978507817 * v4 + 1427861135554592284 * v5 + 4033726302273030373 * v6 + 14761176804905342155 * v7 + 11465247508084706095 * v8 + 12112647677590318112 * v9 + 17343938135425110721 * v10 + 14654483060427620352 * v11,
        d8 == 5421794552262605237 * v0 + 14201164512563303484 * v1 + 5290621264363227639 * v2 + 1020180205893205576 * v3 + 14311345105258400438 * v4 + 7828111500457301560 * v5 + 9436759291445548340 * v6 + 5716067521736967068 * v7 + 15357555109169671716 * v8 + 4131452666376493252 * v9 + 16785275933585465720 * v10 + 11180136753375315897 * v11,
        d9 == 10451661389735482801 * v0 + 12128852772276583847 * v1 + 10630876800354432923 * v2 + 6884824371838330777 * v3 + 16413552665026570512 * v4 + 13637837753341196082 * v5 + 2558124068257217718 * v6 + 4327919242598628564 * v7 + 4236040195908057312 * v8 + 2081029262044280559 * v9 + 2047510589162918469 * v10 + 6835491236529222042 * v11,
        d10 == 5675273097893923172 * v0 + 8120839782755215647 * v1 + 9856415804450870143 * v2 + 1960632704307471239 * v3 + 15279057263127523057 * v4 + 17999325337309257121 * v5 + 72970456904683065 * v6 + 8899624805082057509 * v7 + 16980481565524365258 * v8 + 6412696708929498357 * v9 + 13917768671775544479 * v10 + 5505378218427096880 * v11,
        d11 == 10318314766641004576 * v0 + 17320192463105632563 * v1 + 11540812969169097044 * v2 + 7270556942018024148 * v3 + 4755326086930560682 * v4 + 2193604418377108959 * v5 + 11681945506511803967 * v6 + 8000243866012209465 * v7 + 6746478642521594042 * v8 + 12096331252283646217 * v9 + 13208137848575217268 * v10 + 5548519654341606996 * v11,
        w0 == d0 - (P as int) * q0,
        w1 == d1 - (P as int) * q1,
        w2 == d2 - (P as int) * q2,
        w3 == d3 - (P as int) * q3,
        w4 == d4 - (P as int) * q4,
        w5 == d5 - (P as int) * q5,
        w6 == d6 - (P as int) * q6,
        w7 == d7 - (P as int) * q7,
        w8 == d8 - (P as int) * q8,
        w9 == d9 - (P as int) * q9,
        w10 == d10 - (P as int) * q10,
        w11 == d11 - (P as int) * q11,
    ensures
        (13640353831792923980 * w0 + 1583879644687006251 * w1 + 17678309436940389401 * w2 + 6793918274289159258 * w3 + 3594897835134355282 * w4 + 2158539885379341689 * w5 + 12473871986506720374 * w6 + 14874332242561185932 * w7 + 16402478875851979683 * w8 + 9893468322166516227 * w9 + 8142413325661539529 * w10 + 3444000755516388321 * w11) % (P as int) == v2,
{
    let x = 34005914588015605177 * v0 + 65653202378787915663 * v1 + 44538772891268319519 * v2 + 57478939846661516007 * v3 + 69374895599560688507 * v4 + 58939088152030547573 * v5 + 42409638137376774747 * v6 + 65672649710942115166 * v7 + 48506912477758430998 * v8 + 44771648539846574097 * v9 + 62319908142954180188 * v10 + 60167846477637107400 * v11;
    let y = 13640353831792923980 * q0 + 1583879644687006251 * q1 + 17678309436940389401 * q2 + 6793918274289159258 * q3 + 3594897835134355282 * q4 + 2158539885379341689 * q5 + 12473871986506720374 * q6 + 14874332242561185932 * q7 + 16402478875851979683 * q8 + 9893468322166516227 * q9 + 8142413325661539529 * q10 + 3444000755516388321 * q11;
    assert(13640353831792923980 * d0 + 1583879644687006251 * d1 + 17678309436940389401 * d2 + 6793918274289159258 * d3 + 3594897835134355282 * d4 + 2158539885379341689 * d5 + 12473871986506720374 * d6 + 14874332242561185932 * d7 + 16402478875851979683 * d8 + 9893468322166516227 * d9 + 8142413325661539529 * d10 + 3444000755516388321 * d11 == v2 + (P as int) * x);
    lemma_reduces_to(13640353831792923980 * w0 + 1583879644687006251 * w1 + 17678309436940389401 * w2 + 6793918274289159258 * w3 + 3594897835134355282 * w4 + 2158539885379341689 * w5 + 12473871986506720374 * w6 + 14874332242561185932 * w7 + 16402478875851979683 * w8 + 9893468322166516227 * w9 + 8142413325661539529 * w10 + 3444000755516388321 * w11, v2, x - y);
}

proof fn lemma_inv_mds_row3(v0: int, v1: int, v2: int, v3: int, v4: int, v5: int, v6: int, v7: int, v8: int, v9: int, v10: int, v11: int, d0: int, d1: int, d2: int, d3: int, d4: int, d5: int, d6: int, d7: int, d8: int, d9: int, d10: int, d11: int, w0: int, w1: int, w2: int, w3: int, w4: int, w5: int, w6: int, w7: int, w8: int, w9: int, w10: int, w11: int, q0: int, q1: int, q2: int, q3: int, q4: int, q5: int, q6: int, q7: int, q8: int, q9: int, q10: int, q11: int)
    requires
        0 <= v3 < P,
        d0 == 2108866337646019936 * v0 + 11223275256334781131 * v1 + 2318414738826783588 * v2 + 11240468238955543594 * v3 + 8007389560317667115 * v4 + 11080831380224887131 * v5 + 3922954383102346493 * v6 + 17194066286743901609 * v7 + 152620255842323114 * v8 + 7203302445933022224 * v9 + 17781531460838764471 * v10 + 2306881200 * v11,
        d1 == 3368836954250922620 * v0 + 5531382716338105518 * v1 + 7747104620279034727 * v2 + 14164487169476525880 * v3 + 4653455932372793639 * v4 + 5504123103633670518 * v5 + 3376629427948045767 * v6 + 1687083899297674997 * v7 + 8324288417826065247 * v8 + 17651364087632826504 * v9 + 15568475755679636039 * v10 + 4656488262337620150 * v11,
        d2 == 2560535215714666606 * v0 + 10793518538122219186 * v1 + 408467828146985886 * v2 + 13894393744319723897 * v3 + 17856013635663093677 * v4 + 14510101432365346218 * v5 + 12175743201430386993 * v6 + 12012700097100374591 * v7 + 976880602086740182 * v8 + 3187015135043748111 * v9 + 4630899319883688283 * v10 + 17674195666610532297 * v11,
        d3 == 10940635879119829731 * v0 + 9126204055164541072 * v1 + 13441880452578323624 * v2 + 13828699194559433302 * v3 + 6245685172712904082 * v4 + 3117562785727957263 * v5 + 17389107632996288753 * v6 + 3643151412418457029 * v7 + 10484080975961167028 * v8 + 4066673631745731889 * v9 + 8847974898748751041 * v10 + 9548808324754121113 * v11,
        d4 == 15656099696515372126 * v0 + 309741777966979967 * v1 + 16075523529922094036 * v2 + 5384192144218250710 * v3 + 15171244241641106028 * v4 + 6660319859038124593 * v5 + 6595450094003204814 * v6 + 15330207556174961057 * v7 + 2687301105226976975 * v8 + 15907414358067140389 * v9 + 2767130804164179683 * v10 + 8135839249549115549 * v11,
        d5 == 14687393836444508153 * v0 + 8122848807512458890 * v1 + 16998154830503301252 * v2 + 2904046703764323264 * v3 + 11170142989407566484 * v4 + 5448553946207765015 * v5 + 9766047029091333225 * v6 + 3852354853341479440 * v7 + 14577128274897891003 * v8 + 11994931371916133447 * v9 + 8299269445020599466 * v10 + 2859592328380146288 * v11,
        d6 == 4920761474064525703 * v0 + 13379538658122003618 * v1 + 3169184545474588182 * v2 + 15753261541491539618 * v3 + 622292315133191494 * v4 + 14052907820095169428 * v5 + 5159844729950547044 * v6 + 17439978194716087321 * v7 + 9945483003842285313 * v8 + 13647273880020281344 * v9 + 14750994260825376 * v10 + 12575187259316461486 * v11,
        d7 == 3371852905554824605 * v0 + 8886257005679683950 * v1 + 15677115160380392279 * v2 + 13242906482047961505 * v3 + 12149996307978507817 * v4 + 1427861135554592284 * v5 + 4033726302273030373 * v6 + 14761176804905342155 * v7 + 11465247508084706095 * v8 + 12112647677590318112 * v9 + 17343938135425110721 * v10 + 14654483060427620352 * v11,
        d8 == 5421794552262605237 * v0 + 14201164512563303484 * v1 + 5290621264363227639 * v2 + 1020180205893205576 * v3 + 14311345105258400438 * v4 + 7828111500457301560 * v5 + 9436759291445548340 * v6 + 5716067521736967068 * v7 + 15357555109169671716 * v8 + 4131452666376493252 * v9 + 16785275933585465720 * v10 + 11180136753375315897 * v11,
        d9 == 10451661389735482801 * v0 + 12128852772276583847 * v1 + 10630876800354432923 * v2 + 6884824371838330777 * v3 + 16413552665026570512 * v4 + 13637837753341196082 * v5 + 2558124068257217718 * v6 + 4327919242598628564 * v7 + 4236040195908057312 * v8 + 2081029262044280559 * v9 + 2047510589162918469 * v10 + 6835491236529222042 * v11,
        d10 == 5675273097893923172 * v0 + 8120839782755215647 * v1 + 9856415804450870143 * v2 + 1960632704307471239 * v3 + 15279057263127523057 * v4 + 17999325337309257121 * v5 + 72970456904683065 * v6 + 8899624805082057509 * v7 + 16980481565524365258 * v8 + 6412696708929498357 * v9 + 13917768671775544479 * v10 + 5505378218427096880 * v11,
        d11 == 10318314766641004576 * v0 + 17320192463105632563 * v1 + 11540812969169097044 * v2 + 7270556942018024148 * v3 + 4755326086930560682 * v4 + 2193604418377108959 * v5 + 11681945506511803967 * v6 + 8000243866012209465 * v7 + 6746478642521594042 * v8 + 12096331252283646217 * v9 + 13208137848575217268 * v10 + 5548519654341606996 * v11,
        w0 == d0 - (P as int) * q0,
        w1 == d1 - (P as int) * q1,
        w2 == d2 - (P as int) * q2,
        w3 == d3 - (P as int) * q3,
        w4 == d4 - (P as int) * q4,
        w5 == d5 - (P as int) * q5,
        w6 == d6 - (P as int) * q6,
        w7 == d7 - (P as int) * q7,
        w8 == d8 - (P as int) * q8,
        w9 == d9 - (P as int) * q9,
        w10 == d10 - (P as int) * q10,
        w11 == d11 - (P as int) * q11,
    ensures
        (14009777257506018221 * w0 + 18218829733847178457 * w1 + 11151899210182873569 * w2 + 14653120475631972171 * w3 + 9591156713922565586 * w4 + 16622517275046324812 * w5 + 3958136700677573712 * w6 + 2193274161734965529 * w7 + 15125079516929063010 * w8 + 3648852869044193741 * w9 + 4405494440143722315 * w10 + 15549070131235639125 * w11) % (P as int) == v3,
{
    let x = 54565105762493514155 * v0 + 69751434770326708618 * v1 + 65078718944572259638 * v2 + 61076977301736544079 * v3 + 68603442500679294947 * v4 + 51921762075563038214 * v5 + 59412156040734652509 * v6 + 56231960884288586669 * v7 + 58458027174075001228 * v8 + 67035944032228487263 * v9 + 78316271332648336177 * v10 + 50627264397403693108 * v11;
    let y = 14009777257506018221 * q0 + 18218829733847178457 * q1 + 11151899210182873569 * q2 + 14653120475631972171 * q3 + 9591156713922565586 * q4 + 16622517275046324812 * q5 + 3958136700677573712 * q6 + 2193274161734965529 * q7 + 15125079516929063010 * q8 + 3648852869044193741 * q9 + 4405494440143722315 * q10 + 15549070131235639125 * q11;
    assert(14009777257506018221 * d0 + 18218829733847178457 * d1 + 11151899210182873569 * d2 + 14653120475631972171 * d3 + 9591156713922565586 * d4 + 16622517275046324812 * d5 + 3958136700677573712 * d6 + 2193274161734965529 * d7 + 15125079516929063010 * d8 + 3648852869044193741 * d9 + 4405494440143722315 * d10 + 15549070131235639125 * d11 == v3 + (P as int) * x);
    lemma_reduces_to(14009777257506018221 * w0 + 18218829733847178457 * w1 + 11151899210182873569 * w2 + 14653120475631972171 * w3 + 9591156713922565586 * w4 + 16622517275046324812 * w5 + 3958136700677573712 * w6 + 2193274161734965529 * w7 + 15125079516929063010 * w8 + 3648852869044193741 * w9 + 4405494440143722315 * w10 + 15549070131235639125 * w11, v3, x - y);
}

proof fn lemma_inv_mds_row4(v0: int, v1: int, v2: int, v3: int, v4: int, v5: int, v6: int, v7: int, v8: int, v9: int, v10: int, v11: int, d0: int, d1: int, d2: int, d3: int, d4: int, d5: int, d6: int, d7: int, d8: int, d9: int, d10: int, d11: int, w0: int, w1: int, w2: int, w3: int, w4: int, w5: int, w6: int, w7: int, w8: int, w9: int, w10: int, w11: int, q0: int, q1: int, q2: int, q3: int, q4: int, q5: int, q6: int, q7: int, q8: int, q9: int, q10: int, q11: int)
    requires
        0 <= v4 < P,
        d0 == 2108866337646019936 * v0 + 11223275256334781131 * v1 + 2318414738826783588 * v2 + 11240468238955543594 * v3 + 8007389560317667115 * v4 + 11080831380224887131 * v5 + 3922954383102346493 * v6 + 17194066286743901609 * v7 + 152620255842323114 * v8 + 7203302445933022224 * v9 + 17781531460838764471 * v10 + 2306881200 * v11,
        d1 == 3368836954250922620 * v0 + 5531382716338105518 * v1 + 7747104620279034727 * v2 + 14164487169476525880 * v3 + 4653455932372793639 * v4 + 5504123103633670518 * v5 + 3376629427948045767 * v6 + 1687083899297674997 * v7 + 8324288417826065247 * v8 + 17651364087632826504 * v9 + 15568475755679636039 * v10 + 4656488262337620150 * v11,
        d2 == 2560535215714666606 * v0 + 10793518538122219186 * v1 + 408467828146985886 * v2 + 13894393744319723897 * v3 + 17856013635663093677 * v4 + 14510101432365346218 * v5 + 12175743201430386993 * v6 + 12012700097100374591 * v7 + 976880602086740182 * v8 + 3187015135043748111 * v9 + 4630899319883688283 * v10 + 17674195666610532297 * v11,
        d3 == 10940635879119829731 * v0 + 9126204055164541072 * v1 + 13441880452578323624 * v2 + 13828699194559433302 * v3 + 6245685172712904082 * v4 + 3117562785727957263 * v5 + 17389107632996288753 * v6 + 3643151412418457029 * v7 + 10484080975961167028 * v8 + 4066673631745731889 * v9 + 8847974898748751041 * v10 + 9548808324754121113 * v11,
        d4 == 15656099696515372126 * v0 + 309741777966979967 * v1 + 16075523529922094036 * v2 + 5384192144218250710 * v3 + 15171244241641106028 * v4 + 6660319859038124593 * v5 + 6595450094003204814 * v6 + 15330207556174961057 * v7 + 2687301105226976975 * v8 + 15907414358067140389 * v9 + 2767130804164179683 * v10 + 8135839249549115549 * v11,
        d5 == 14687393836444508153 * v0 + 8122848807512458890 * v1 + 16998154830503301252 * v2 + 2904046703764323264 * v3 + 11170142989407566484 * v4 + 5448553946207765015 * v5 + 9766047029091333225 * v6 + 3852354853341479440 * v7 + 14577128274897891003 * v8 + 11994931371916133447 * v9 + 8299269445020599466 * v10 + 2859592328380146288 * v11,
        d6 == 4920761474064525703 * v0 + 13379538658122003618 * v1 + 3169184545474588182 * v2 + 15753261541491539618 * v3 + 622292315133191494 * v4 + 14052907820095169428 * v5 + 5159844729950547044 * v6 + 17439978194716087321 * v7 + 9945483003842285313 * v8 + 13647273880020281344 * v9 + 14750994260825376 * v10 + 12575187259316461486 * v11,
        d7 == 3371852905554824605 * v0 + 8886257005679683950 * v1 + 15677115160380392279 * v2 + 13242906482047961505 * v3 + 12149996307978507817 * v4 + 1427861135554592284 * v5 + 4033726302273030373 * v6 + 14761176804905342155 * v7 + 11465247508084706095 * v8 + 12112647677590318112 * v9 + 17343938135425110721 * v10 + 14654483060427620352 * v11,
        d8 == 5421794552262605237 * v0 + 14201164512563303484 * v1 + 5290621264363227639 * v2 + 1020180205893205576 * v3 + 14311345105258400438 * v4 + 7828111500457301560 * v5 + 9436759291445548340 * v6 + 5716067521736967068 * v7 + 15357555109169671716 * v8 + 4131452666376493252 * v9 + 16785275933585465720 * v10 + 11180136753375315897 * v11,
        d9 == 10451661389735482801 * v0 + 12128852772276583847 * v1 + 10630876800354432923 * v2 + 6884824371838330777 * v3 + 16413552665026570512 * v4 + 13637837753341196082 * v5 + 2558124068257217718 * v6 + 4327919242598628564 * v7 + 4236040195908057312 * v8 + 2081029262044280559 * v9 + 2047510589162918469 * v10 + 6835491236529222042 * v11,
        d10 == 5675273097893923172 * v0 + 8120839782755215647 * v1 + 9856415804450870143 * v2 + 1960632704307471239 * v3 + 15279057263127523057 * v4 + 17999325337309257121 * v5 + 72970456904683065 * v6 + 8899624805082057509 * v7 + 16980481565524365258 * v8 + 6412696708929498357 * v9 + 13917768671775544479 * v10 + 5505378218427096880 * v11,
        d11 == 10318314766641004576 * v0 + 17320192463105632563 * v1 + 11540812969169097044 * v2 + 7270556942018024148 * v3 + 4755326086930560682 * v4 + 2193604418377108959 * v5 + 11681945506511803967 * v6 + 8000243866012209465 * v7 + 6746478642521594042 * v8 + 12096331252283646217 * v9 + 13208137848575217268 * v10 + 5548519654341606996 * v11,
        w0 == d0 - (P as int) * q0,
        w1 == d1 - (P as int) * q1,
        w2 == d2 - (P as int) * q2,
        w3 == d3 - (P as int) * q3,
        w4 == d4 - (P as int) * q4,
        w5 == d5 - (P as int) * q5,
        w6 == d6 - (P as int) * q6,
        w7 == d7 - (P as int) * q7,
        w8 == d8 - (P as int) * q8,
        w9 == d9 - (P as int) * q9,
        w10 == d10 - (P as int) * q10,
        w11 == d11 - (P as int) * q11,
    ensures
        (14324333194410783741 * w0 + 12565645879378458115 * w1 + 4028590290335558535 * w2 + 17936155181893467294 * w3 + 1833939650657097992 * w4 + 14310984655970610026 * w5 + 4701042357351086687 * w6 + 1226379890265418475 * w7 + 2550212856624409740 * w8 + 5670703442709406167 * w9 + 3281485106506301394 * w10 + 9804247840970323440 * w11) % (P as int) == v4,
{
    let x = 40014700485552296541 * v0 + 50388714368882578666 * v1 + 48758425508011533705 * v2 + 49011245106905080707 * v3 + 42770199408890538137 * v4 + 36761749327877087143 * v5 + 43041375245651787852 * v6 + 38561041195094683425 * v7 + 41100684068212178271 * v8 + 46218572652238275024 * v9 + 54343460704196253203 * v10 + 31097851384692007419 * v11;
    let y = 14324333194410783741 * q0 + 12565645879378458115 * q1 + 4028590290335558535 * q2 + 17936155181893467294 * q3 + 1833939650657097992 * q4 + 14310984655970610026 * q5 + 4701042357351086687 * q6 + 1226379890265418475 * q7 + 2550212856624409740 * q8 + 5670703442709406167 * q9 + 3281485106506301394 * q10 + 9804247840970323440 * q11;
    assert(14324333194410783741 * d0 + 12565645879378458115 * d1 + 4028590290335558535 * d2 + 17936155181893467294 * d3 + 1833939650657097992 * d4 + 14310984655970610026 * d5 + 4701042357351086687 * d6 + 1226379890265418475 * d7 + 2550212856624409740 * d8 + 5670703442709406167 * d9 + 3281485106506301394 * d10 + 9804247840970323440 * d11 == v4 + (P as int) * x);
    lemma_reduces_to(14324333194410783741 * w0 + 12565645879378458115 * w1 + 4028590290335558535 * w2 + 17936155181893467294 * w3 + 1833939650657097992 * w4 + 14310984655970610026 * w5 + 4701042357351086687 * w6 + 1226379890265418475 * w7 + 2550212856624409740 * w8 + 5670703442709406167 * w9 + 3281485106506301394 * w10 + 9804247840970323440 * w11, v4, x - y);
}

proof fn lemma_inv_mds_row5(v0: int, v1: int, v2: int, v3: int, v4: int, v5: int, v6: int, v7: int, v8: int, v9: int, v10: int, v11: int, d0: int, d1: int, d2: int, d3: int, d4: int, d5: int, d6: int, d7: int, d8: int, d9: int, d10: int, d11: int, w0: int, w1: int, w2: int, w3: int, w4: int, w5: int, w6: int, w7: int, w8: int, w9: int, w10: int, w11: int, q0: int, q1: int, q2: int, q3: int, q4: int, q5: int, q6: int, q7: int, q8: int, q9: int, q10: int, q11: int)
    requires
        0 <= v5 < P,
        d0 == 2108866337646019936 * v0 + 11223275256334781131 * v1 + 2318414738826783588 * v2 + 11240468238955543594 * v3 + 8007389560317667115 * v4 + 11080831380224887131 * v5 + 3922954383102346493 * v6 + 17194066286743901609 * v7 + 152620255842323114 * v8 + 7203302445933022224 * v9 + 17781531460838764471 * v10 + 2306881200 * v11,
        d1 == 3368836954250922620 * v0 + 5531382716338105518 * v1 + 7747104620279034727 * v2 + 14164487169476525880 * v3 + 4653455932372793639 * v4 + 5504123103633670518 * v5 + 3376629427948045767 * v6 + 1687083899297674997 * v7 + 8324288417826065247 * v8 + 17651364087632826504 * v9 + 15568475755679636039 * v10 + 4656488262337620150 * v11,
        d2 == 2560535215714666606 * v0 + 10793518538122219186 * v1 + 408467828146985886 * v2 + 13894393744319723897 * v3 + 17856013635663093677 * v4 + 14510101432365346218 * v5 + 12175743201430386993 * v6 + 12012700097100374591 * v7 + 976880602086740182 * v8 + 3187015135043748111 * v9 + 4630899319883688283 * v10 + 17674195666610532297 * v11,
        d3 == 10940635879119829731 * v0 + 9126204055164541072 * v1 + 13441880452578323624 * v2 + 13828699194559433302 * v3 + 6245685172712904082 * v4 + 3117562785727957263 * v5 + 17389107632996288753 * v6 + 3643151412418457029 * v7 + 10484080975961167028 * v8 + 4066673631745731889 * v9 + 8847974898748751041 * v10 + 9548808324754121113 * v11,
        d4 == 15656099696515372126 * v0 + 309741777966979967 * v1 + 16075523529922094036 * v2 + 5384192144218250710 * v3 + 15171244241641106028 * v4 + 6660319859038124593 * v5 + 6595450094003204814 * v6 + 15330207556174961057 * v7 + 2687301105226976975 * v8 + 15907414358067140389 * v9 + 2767130804164179683 * v10 + 8135839249549115549 * v11,
        d5 == 14687393836444508153 * v0 + 8122848807512458890 * v1 + 16998154830503301252 * v2 + 2904046703764323264 * v3 + 11170142989407566484 * v4 + 5448553946207765015 * v5 + 9766047029091333225 * v6 + 3852354853341479440 * v7 + 14577128274897891003 * v8 + 11994931371916133447 * v9 + 8299269445020599466 * v10 + 2859592328380146288 * v11,
        d6 == 4920761474064525703 * v0 + 13379538658122003618 * v1 + 3169184545474588182 * v2 + 15753261541491539618 * v3 + 622292315133191494 * v4 + 14052907820095169428 * v5 + 5159844729950547044 * v6 + 17439978194716087321 * v7 + 9945483003842285313 * v8 + 13647273880020281344 * v9 + 14750994260825376 * v10 + 12575187259316461486 * v11,
        d7 == 3371852905554824605 * v0 + 8886257005679683950 * v1 + 15677115160380392279 * v2 + 13242906482047961505 * v3 + 12149996307978507817 * v4 + 1427861135554592284 * v5 + 4033726302273030373 * v6 + 14761176804905342155 * v7 + 11465247508084706095 * v8 + 12112647677590318112 * v9 + 17343938135425110721 * v10 + 14654483060427620352 * v11,
        d8 == 5421794552262605237 * v0 + 14201164512563303484 * v1 + 5290621264363227639 * v2 + 1020180205893205576 * v3 + 14311345105258400438 * v4 + 7828111500457301560 * v5 + 9436759291445548340 * v6 + 5716067521736967068 * v7 + 15357555109169671716 * v8 + 4131452666376493252 * v9 + 16785275933585465720 * v10 + 11180136753375315897 * v11,
        d9 == 10451661389735482801 * v0 + 12128852772276583847 * v1 + 10630876800354432923 * v2 + 6884824371838330777 * v3 + 16413552665026570512 * v4 + 13637837753341196082 * v5 + 2558124068257217718 * v6 + 4327919242598628564 * v7 + 4236040195908057312 * v8 + 2081029262044280559 * v9 + 2047510589162918469 * v10 + 6835491236529222042 * v11,
        d10 == 5675273097893923172 * v0 + 8120839782755215647 * v1 + 9856415804450870143 * v2 + 1960632704307471239 * v3 + 15279057263127523057 * v4 + 17999325337309257121 * v5 + 72970456904683065 * v6 + 8899624805082057509 * v7 + 16980481565524365258 * v8 + 6412696708929498357 * v9 + 13917768671775544479 * v10 + 5505378218427096880 * v11,
        d11 == 10318314766641004576 * v0 + 17320192463105632563 * v1 + 11540812969169097044 * v2 + 7270556942018024148 * v3 + 4755326086930560682 * v4 + 2193604418377108959 * v5 + 11681945506511803967 * v6 + 8000243866012209465 * v7 + 6746478642521594042 * v8 + 12096331252283646217 * v9 + 13208137848575217268 * v10 + 5548519654341606996 * v11,
        w0 == d0 - (P as int) * q0,
        w1 == d1 - (P as int) * q1,
        w2 == d2 - (P as int) * q2,
        w3 == d3 - (P as int) * q3,
        w4 == d4 - (P as int) * q4,
        w5 == d5 - (P as int) * q5,
        w6 == d6 - (P as int) * q6,
        w7 == d7 - (P as int) * q7,
        w8 == d8 - (P as int) * q8,
        w9 == d9 - (P as int) * q9,
        w10 == d10 - (P as int) * q10,
        w11 == d11 - (P as int) * q11,
    ensures
        (7778523590474814059 * w0 + 7154630063229321501 * w1 + 17790326505487126055 * w2 + 3160574440608126866 * w3 + 7292349907185131376 * w4 + 1916491575080831825 * w5 + 11523142515674812675 * w6 + 2162357063341827157 * w7 + 6650415936886875699 * w8 + 11522955632464608509 * w9 + 16740856792338897018 * w10 + 16987840393715133187 * w11) % (P as int) == v5,
{
    let x = 40860107609177808391 * v0 + 65233292246049817297 * v1 + 46738778655802987752 * v2 + 52969358114208345723 * v3 + 66100817140760107888 * v4 + 63176190992641909634 * v5 + 40828036571190270178 * v6 + 59407590092965492334 * v7 + 45970698675854146666 * v8 + 50882320224046709686 * v9 + 55641489798433632833 * v10 + 51980354154966890274 * v11;
    let y = 7778523590474814059 * q0 + 7154630063229321501 * q1 + 17790326505487126055 * q2 + 3160574440608126866 * q3 + 7292349907185131376 * q4 + 1916491575080831825 * q5 + 11523142515674812675 * q6 + 2162357063341827157 * q7 + 6650415936886875699 * q8 + 11522955632464608509 * q9 + 16740856792338897018 * q10 + 16987840393715133187 * q11;
    assert(7778523590474814059 * d0 + 7154630063229321501 * d1 + 17790326505487126055 * d2 + 3160574440608126866 * d3 + 7292349907185131376 * d4 + 1916491575080831825 * d5 + 11523142515674812675 * d6 + 2162357063341827157 * d7 + 6650415936886875699 * d8 + 11522955632464608509 * d9 + 16740856792338897018 * d10 + 16987840393715133187 * d11 == v5 + (P as int) * x);
    lemma_reduces_to(7778523590474814059 * w0 + 7154630063229321501 * w1 + 17790326505487126055 * w2 + 3160574440608126866 * w3 + 7292349907185131376 * w4 + 1916491575080831825 * w5 + 11523142515674812675 * w6 + 2162357063341827157 * w7 + 6650415936886875699 * w8 + 11522955632464608509 * w9 + 16740856792338897018 * w10 + 16987840393715133187 * w11, v5, x - y);
}

proof fn lemma_inv_mds_row6(v0: int, v1: int, v2: int, v3: int, v4: int, v5: int, v6: int, v7: int, v8: int, v9: int, v10: int, v11: int, d0: int, d1: int, d2: int, d3: int, d4: int, d5: int, d6: int, d7: int, d8: int, d9: int, d10: int, d11: int, w0: int, w1: int, w2: int, w3: int, w4: int, w5: int, w6: int, w7: int, w8: int, w9: int, w10: int, w11: int, q0: int, q1: int, q2: int, q3: int, q4: int, q5: int, q6: int, q7: int, q8: int, q9: int, q10: int, q11: int)
    requires
        0 <= v6 < P,
        d0 == 2108866337646019936 * v0 + 11223275256334781131 * v1 + 2318414738826783588 * v2 + 11240468238955543594 * v3 + 8007389560317667115 * v4 + 11080831380224887131 * v5 + 3922954383102346493 * v6 + 17194066286743901609 * v7 + 152620255842323114 * v8 + 7203302445933022224 * v9 + 17781531460838764471 * v10 + 2306881200 * v11,
        d1 == 3368836954250922620 * v0 + 5531382716338105518 * v1 + 7747104620279034727 * v2 + 14164487169476525880 * v3 + 4653455932372793639 * v4 + 5504123103633670518 * v5 + 3376629427948045767 * v6 + 1687083899297674997 * v7 + 8324288417826065247 * v8 + 17651364087632826504 * v9 + 15568475755679636039 * v10 + 4656488262337620150 * v11,
        d2 == 2560535215714666606 * v0 + 10793518538122219186 * v1 + 408467828146985886 * v2 + 13894393744319723897 * v3 + 17856013635663093677 * v4 + 14510101432365346218 * v5 + 12175743201430386993 * v6 + 12012700097100374591 * v7 + 976880602086740182 * v8 + 3187015135043748111 * v9 + 4630899319883688283 * v10 + 17674195666610532297 * v11,
        d3 == 10940635879119829731 * v0 + 9126204055164541072 * v1 + 13441880452578323624 * v2 + 13828699194559433302 * v3 + 6245685172712904082 * v4 + 3117562785727957263 * v5 + 17389107632996288753 * v6 + 3643151412418457029 * v7 + 10484080975961167028 * v8 + 4066673631745731889 * v9 + 8847974898748751041 * v10 + 9548808324754121113 * v11,
        d4 == 15656099696515372126 * v0 + 309741777966979967 * v1 + 16075523529922094036 * v2 + 5384192144218250710 * v3 + 15171244241641106028 * v4 + 6660319859038124593 * v5 + 6595450094003204814 * v6 + 15330207556174961057 * v7 + 2687301105226976975 * v8 + 15907414358067140389 * v9 + 2767130804164179683 * v10 + 8135839249549115549 * v11,
        d5 == 14687393836444508153 * v0 + 8122848807512458890 * v1 + 16998154830503301252 * v2 + 2904046703764323264 * v3 + 11170142989407566484 * v4 + 5448553946207765015 * v5 + 9766047029091333225 * v6 + 3852354853341479440 * v7 + 14577128274897891003 * v8 + 11994931371916133447 * v9 + 8299269445020599466 * v10 + 2859592328380146288 * v11,
        d6 == 4920761474064525703 * v0 + 13379538658122003618 * v1 + 3169184545474588182 * v2 + 15753261541491539618 * v3 + 622292315133191494 * v4 + 14052907820095169428 * v5 + 5159844729950547044 * v6 + 17439978194716087321 * v7 + 9945483003842285313 * v8 + 13647273880020281344 * v9 + 14750994260825376 * v10 + 12575187259316461486 * v11,
        d7 == 3371852905554824605 * v0 + 8886257005679683950 * v1 + 15677115160380392279 * v2 + 13242906482047961505 * v3 + 12149996307978507817 * v4 + 1427861135554592284 * v5 + 4033726302273030373 * v6 + 14761176804905342155 * v7 + 11465247508084706095 * v8 + 12112647677590318112 * v9 + 17343938135425110721 * v10 + 14654483060427620352 * v11,
        d8 == 5421794552262605237 * v0 + 14201164512563303484 * v1 + 5290621264363227639 * v2 + 1020180205893205576 * v3 + 14311345105258400438 * v4 + 7828111500457301560 * v5 + 9436759291445548340 * v6 + 5716067521736967068 * v7 + 15357555109169671716 * v8 + 4131452666376493252 * v9 + 16785275933585465720 * v10 + 11180136753375315897 * v11,
        d9 == 10451661389735482801 * v0 + 12128852772276583847 * v1 + 10630876800354432923 * v2 + 6884824371838330777 * v3 + 16413552665026570512 * v4 + 13637837753341196082 * v5 + 2558124068257217718 * v6 + 4327919242598628564 * v7 + 4236040195908057312 * v8 + 2081029262044280559 * v9 + 2047510589162918469 * v10 + 6835491236529222042 * v11,
        d10 == 5675273097893923172 * v0 + 8120839782755215647 * v1 + 9856415804450870143 * v2 + 1960632704307471239 * v3 + 15279057263127523057 * v4 + 17999325337309257121 * v5 + 72970456904683065 * v6 + 8899624805082057509 * v7 + 16980481565524365258 * v8 + 6412696708929498357 * v9 + 13917768671775544479 * v10 + 5505378218427096880 * v11,
        d11 == 10318314766641004576 * v0 + 17320192463105632563 * v1 + 11540812969169097044 * v2 + 7270556942018024148 * v3 + 4755326086930560682 * v4 + 2193604418377108959 * v5 + 11681945506511803967 * v6 + 8000243866012209465 * v7 + 6746478642521594042 * v8 + 12096331252283646217 * v9 + 13208137848575217268 * v10 + 5548519654341606996 * v11,
        w0 == d0 - (P as int) * q0,
        w1 == d1 - (P as int) * q1,
        w2 == d2 - (P as int) * q2,
        w3 == d3 - (P as int) * q3,
        w4 == d4 - (P as int) * q4,
        w5 == d5 - (P as int) * q5,
        w6 == d6 - (P as int) * q6,
        w7 == d7 - (P as int) * q7,
        w8 == d8 - (P as int) * q8,
        w9 == d9 - (P as int) * q9,
        w10 == d10 - (P as int) * q10,
        w11 == d11 - (P as int) * q11,
    ensures
        (14499296811525152023 * w0 + 118549270069446537 * w1 + 3041471724857448013 * w2 + 3827228106225598612 * w3 + 2081369067662751050 * w4 + 15406142490454329462 * w5 + 8943531526276617760 * w6 + 3545513411057560337 * w7 + 11433277564645295966 * w8 + 9558995950666358829 * w9 + 7443251815414752292 * w10 + 12335092608217610725 * w11) % (P as int) == v6,
{
    let x = 39404179884544312784 * v0 + 57489378535675525987 * v1 + 45770349927229593433 * v2 + 37154789713696311837 * v3 + 50961869594581569200 * v4 + 44822338084824179642 * v5 + 35913404569906644070 * v6 + 47227839677368884069 * v7 + 45089381432594007604 * v8 + 42217052325394422551 * v9 + 53172389756916364415 * v10 + 33548019958502316997 * v11;
    let y = 14499296811525152023 * q0 + 118549270069446537 * q1 + 3041471724857448013 * q2 + 3827228106225598612 * q3 + 2081369067662751050 * q4 + 15406142490454329462 * q5 + 8943531526276617760 * q6 + 3545513411057560337 * q7 + 11433277564645295966 * q8 + 9558995950666358829 * q9 + 7443251815414752292 * q10 + 12335092608217610725 * q11;
    assert(14499296811525152023 * d0 + 118549270069446537 * d1 + 3041471724857448013 * d2 + 3827228106225598612 * d3 + 2081369067662751050 * d4 + 15406142490454329462 * d5 + 8943531526276617760 * d6 + 3545513411057560337 * d7 + 11433277564645295966 * d8 + 9558995950666358829 * d9 + 7443251815414752292 * d10 + 12335092608217610725 * d11 == v6 + (P as int) * x);
    lemma_reduces_to(14499296811525152023 * w0 + 118549270069446537 * w1 + 3041471724857448013 * w2 + 3827228106225598612 * w3 + 2081369067662751050 * w4 + 15406142490454329462 * w5 + 8943531526276617760 * w6 + 3545513411057560337 * w7 + 11433277564645295966 * w8 + 9558995950666358829 * w9 + 7443251815414752292 * w10 + 12335092608217610725 * w11, v6, x - y);
}

proof fn lemma_inv_mds_row7(v0: int, v1: int, v2: int, v3: int, v4: int, v5: int, v6: int, v7: int, v8: int, v9: int, v10: int, v11: int, d0: int, d1: int, d2: int, d3: int, d4: int, d5: int, d6: int, d7: int, d8: int, d9: int, d10: int, d11: int, w0: int, w1: int, w2: int, w3: int, w4: int, w5: int, w6: int, w7: int, w8: int, w9: int, w10: int, w11: int, q0: int, q1: int, q2: int, q3: int, q4: int, q5: int, q6: int, q7: int, q8: int, q9: int, q10: int, q11: int)
    requires
        0 <= v7 < P,
        d0 == 2108866337646019936 * v0 + 11223275256334781131 * v1 + 2318414738826783588 * v2 + 11240468238955543594 * v3 + 8007389560317667115 * v4 + 11080831380224887131 * v5 + 3922954383102346493 * v6 + 17194066286743901609 * v7 + 152620255842323114 * v8 + 7203302445933022224 * v9 + 17781531460838764471 * v10 + 2306881200 * v11,
        d1 == 3368836954250922620 * v0 + 5531382716338105518 * v1 + 7747104620279034727 * v2 + 14164487169476525880 * v3 + 4653455932372793639 * v4 + 5504123103633670518 * v5 + 3376629427948045767 * v6 + 1687083899297674997 * v7 + 8324288417826065247 * v8 + 17651364087632826504 * v9 + 15568475755679636039 * v10 + 4656488262337620150 * v11,
        d2 == 2560535215714666606 * v0 + 10793518538122219186 * v1 + 408467828146985886 * v2 + 13894393744319723897 * v3 + 17856013635663093677 * v4 + 14510101432365346218 * v5 + 12175743201430386993 * v6 + 12012700097100374591 * v7 + 976880602086740182 * v8 + 3187015135043748111 * v9 + 4630899319883688283 * v10 + 17674195666610532297 * v11,
        d3 == 10940635879119829731 * v0 + 9126204055164541072 * v1 + 13441880452578323624 * v2 + 13828699194559433302 * v3 + 6245685172712904082 * v4 + 3117562785727957263 * v5 + 17389107632996288753 * v6 + 3643151412418457029 * v7 + 10484080975961167028 * v8 + 4066673631745731889 * v9 + 8847974898748751041 * v10 + 9548808324754121113 * v11,
        d4 == 15656099696515372126 * v0 + 309741777966979967 * v1 + 16075523529922094036 * v2 + 5384192144218250710 * v3 + 15171244241641106028 * v4 + 6660319859038124593 * v5 + 6595450094003204814 * v6 + 15330207556174961057 * v7 + 2687301105226976975 * v8 + 15907414358067140389 * v9 + 2767130804164179683 * v10 + 8135839249549115549 * v11,
        d5 == 14687393836444508153 * v0 + 8122848807512458890 * v1 + 16998154830503301252 * v2 + 2904046703764323264 * v3 + 11170142989407566484 * v4 + 5448553946207765015 * v5 + 9766047029091333225 * v6 + 3852354853341479440 * v7 + 14577128274897891003 * v8 + 11994931371916133447 * v9 + 8299269445020599466 * v10 + 2859592328380146288 * v11,
        d6 == 4920761474064525703 * v0 + 13379538658122003618 * v1 + 3169184545474588182 * v2 + 15753261541491539618 * v3 + 622292315133191494 * v4 + 14052907820095169428 * v5 + 5159844729950547044 * v6 + 17439978194716087321 * v7 + 9945483003842285313 * v8 + 13647273880020281344 * v9 + 14750994260825376 * v10 + 12575187259316461486 * v11,
        d7 == 3371852905554824605 * v0 + 8886257005679683950 * v1 + 15677115160380392279 * v2 + 13242906482047961505 * v3 + 12149996307978507817 * v4 + 1427861135554592284 * v5 + 4033726302273030373 * v6 + 14761176804905342155 * v7 + 11465247508084706095 * v8 + 12112647677590318112 * v9 + 17343938135425110721 * v10 + 14654483060427620352 * v11,
        d8 == 5421794552262605237 * v0 + 14201164512563303484 * v1 + 5290621264363227639 * v2 + 1020180205893205576 * v3 + 14311345105258400438 * v4 + 7828111500457301560 * v5 + 9436759291445548340 * v6 + 5716067521736967068 * v7 + 15357555109169671716 * v8 + 4131452666376493252 * v9 + 16785275933585465720 * v10 + 11180136753375315897 * v11,
        d9 == 10451661389735482801 * v0 + 12128852772276583847 * v1 + 10630876800354432923 * v2 + 6884824371838330777 * v3 + 16413552665026570512 * v4 + 13637837753341196082 * v5 + 2558124068257217718 * v6 + 4327919242598628564 * v7 + 4236040195908057312 * v8 + 2081029262044280559 * v9 + 2047510589162918469 * v10 + 6835491236529222042 * v11,
        d10 == 5675273097893923172 * v0 + 8120839782755215647 * v1 + 9856415804450870143 * v2 + 1960632704307471239 * v3 + 15279057263127523057 * v4 + 17999325337309257121 * v5 + 72970456904683065 * v6 + 8899624805082057509 * v7 + 16980481565524365258 * v8 + 6412696708929498357 * v9 + 13917768671775544479 * v10 + 5505378218427096880 * v11,
        d11 == 10318314766641004576 * v0 + 17320192463105632563 * v1 + 11540812969169097044 * v2 + 7270556942018024148 * v3 + 4755326086930560682 * v4 + 2193604418377108959 * v5 + 11681945506511803967 * v6 + 8000243866012209465 * v7 + 6746478642521594042 * v8 + 12096331252283646217 * v9 + 13208137848575217268 * v10 + 5548519654341606996 * v11,
        w0 == d0 - (P as int) * q0,
        w1 == d1 - (P as int) * q1,
        w2 == d2 - (P as int) * q2,
        w3 == d3 - (P as int) * q3,
        w4 == d4 - (P as int) * q4,
        w5 == d5 - (P as int) * q5,
        w6 == d6 - (P as int) * q6,
        w7 == d7 - (P as int) * q7,
        w8 == d8 - (P as int) * q8,
        w9 == d9 - (P as int) * q9,
        w10 == d10 - (P as int) * q10,
        w11 == d11 - (P as int) * q11,
    ensures
        (184304165023253232 * w0 + 11596940249585433199 * w1 + 18170668175083122019 * w2 + 8318891703682569182 * w3 + 4387895409295967519 * w4 + 14599228871586336059 * w5 + 2861651216488619239 * w6 + 567601091253927304 * w7 + 10135289435539766316 * w8 + 14905738261734377063 * w9 + 3345637344934149303 * w10 + 3159874422865401171 * w11) % (P as int) == v7,
{
    let x = 40031344554969082453 * v0 + 49231466318896491896 * v1 + 44869997408083183923 * v2 + 43094987931720324115 * v3 + 61042052899461878267 * v4 + 46351460564642676740 * v5 + 41486228072944954057 * v6 + 34185630915045994621 * v7 + 41092816074044081272 * v8 + 39095556525235451906 * v9 + 41942924225926233763 * v10 + 44858475006378040438 * v11;
    let y = 184304165023253232 * q0 + 11596940249585433199 * q1 + 18170668175083122019 * q2 + 8318891703682569182 * q3 + 4387895409295967519 * q4 + 14599228871586336059 * q5 + 2861651216488619239 * q6 + 567601091253927304 * q7 + 10135289435539766316 * q8 + 14905738261734377063 * q9 + 3345637344934149303 * q10 + 3159874422865401171 * q11;
    assert(184304165023253232 * d0 + 11596940249585433199 * d1 + 18170668175083122019 * d2 + 8318891703682569182 * d3 + 4387895409295967519 * d4 + 14599228871586336059 * d5 + 2861651216488619239 * d6 + 567601091253927304 * d7 + 10135289435539766316 * d8 + 14905738261734377063 * d9 + 3345637344934149303 * d10 + 3159874422865401171 * d11 == v7 + (P as int) * x);
    lemma_reduces_to(184304165023253232 * w0 + 11596940249585433199 * w1 + 18170668175083122019 * w2 + 8318891703682569182 * w3 + 4387895409295967519 * w4 + 14599228871586336059 * w5 + 2861651216488619239 * w6 + 567601091253927304 * w7 + 10135289435539766316 * w8 + 14905738261734377063 * w9 + 3345637344934149303 * w10 + 3159874422865401171 * w11, v7, x - y);
}

proof fn lemma_inv_mds_row8(v0: int, v1: int, v2: int, v3: int, v4: int, v5: int, v6: int, v7: int, v8: int, v9: int, v10: int, v11: int, d0: int, d1: int, d2: int, d3: int, d4: int, d5: int, d6: int, d7: int, d8: int, d9: int, d10: int, d11: int, w0: int, w1: int, w2: int, w3: int, w4: int, w5: int, w6: int, w7: int, w8: int, w9: int, w10: int, w11: int, q0: int, q1: int, q2: int, q3: int, q4: int, q5: int, q6: int, q7: int, q8: int, q9: int, q10: int, q11: int)
    requires
        0 <= v8 < P,
        d0 == 2108866337646019936 * v0 + 11223275256334781131 * v1 + 2318414738826783588 * v2 + 11240468238955543594 * v3 + 8007389560317667115 * v4 + 11080831380224887131 * v5 + 3922954383102346493 * v6 + 17194066286743901609 * v7 + 152620255842323114 * v8 + 7203302445933022224 * v9 + 17781531460838764471 * v10 + 2306881200 * v11,
        d1 == 3368836954250922620 * v0 + 5531382716338105518 * v1 + 7747104620279034727 * v2 + 14164487169476525880 * v3 + 4653455932372793639 * v4 + 5504123103633670518 * v5 + 3376629427948045767 * v6 + 1687083899297674997 * v7 + 8324288417826065247 * v8 + 17651364087632826504 * v9 + 15568475755679636039 * v10 + 4656488262337620150 * v11,
        d2 == 2560535215714666606 * v0 + 10793518538122219186 * v1 + 408467828146985886 * v2 + 13894393744319723897 * v3 + 17856013635663093677 * v4 + 14510101432365346218 * v5 + 12175743201430386993 * v6 + 12012700097100374591 * v7 + 976880602086740182 * v8 + 3187015135043748111 * v9 + 4630899319883688283 * v10 + 17674195666610532297 * v11,
        d3 == 10940635879119829731 * v0 + 9126204055164541072 * v1 + 13441880452578323624 * v2 + 13828699194559433302 * v3 + 6245685172712904082 * v4 + 3117562785727957263 * v5 + 17389107632996288753 * v6 + 3643151412418457029 * v7 + 10484080975961167028 * v8 + 4066673631745731889 * v9 + 8847974898748751041 * v10 + 9548808324754121113 * v11,
        d4 == 15656099696515372126 * v0 + 309741777966979967 * v1 + 16075523529922094036 * v2 + 5384192144218250710 * v3 + 15171244241641106028 * v4 + 6660319859038124593 * v5 + 6595450094003204814 * v6 + 15330207556174961057 * v7 + 2687301105226976975 * v8 + 15907414358067140389 * v9 + 2767130804164179683 * v10 + 8135839249549115549 * v11,
        d5 == 14687393836444508153 * v0 + 8122848807512458890 * v1 + 16998154830503301252 * v2 + 2904046703764323264 * v3 + 11170142989407566484 * v4 + 5448553946207765015 * v5 + 9766047029091333225 * v6 + 3852354853341479440 * v7 + 14577128274897891003 * v8 + 11994931371916133447 * v9 + 8299269445020599466 * v10 + 2859592328380146288 * v11,
        d6 == 4920761474064525703 * v0 + 13379538658122003618 * v1 + 3169184545474588182 * v2 + 15753261541491539618 * v3 + 622292315133191494 * v4 + 14052907820095169428 * v5 + 5159844729950547044 * v6 + 17439978194716087321 * v7 + 9945483003842285313 * v8 + 13647273880020281344 * v9 + 14750994260825376 * v10 + 12575187259316461486 * v11,
        d7 == 3371852905554824605 * v0 + 8886257005679683950 * v1 + 15677115160380392279 * v2 + 13242906482047961505 * v3 + 12149996307978507817 * v4 + 1427861135554592284 * v5 + 4033726302273030373 * v6 + 14761176804905342155 * v7 + 11465247508084706095 * v8 + 12112647677590318112 * v9 + 17343938135425110721 * v10 + 14654483060427620352 * v11,
        d8 == 5421794552262605237 * v0 + 14201164512563303484 * v1 + 5290621264363227639 * v2 + 1020180205893205576 * v3 + 14311345105258400438 * v4 + 7828111500457301560 * v5 + 9436759291445548340 * v6 + 5716067521736967068 * v7 + 15357555109169671716 * v8 + 4131452666376493252 * v9 + 16785275933585465720 * v10 + 11180136753375315897 * v11,
        d9 == 10451661389735482801 * v0 + 12128852772276583847 * v1 + 10630876800354432923 * v2 + 6884824371838330777 * v3 + 16413552665026570512 * v4 + 13637837753341196082 * v5 + 2558124068257217718 * v6 + 4327919242598628564 * v7 + 4236040195908057312 * v8 + 2081029262044280559 * v9 + 2047510589162918469 * v10 + 6835491236529222042 * v11,
        d10 == 5675273097893923172 * v0 + 8120839782755215647 * v1 + 9856415804450870143 * v2 + 1960632704307471239 * v3 + 15279057263127523057 * v4 + 17999325337309257121 * v5 + 72970456904683065 * v6 + 8899624805082057509 * v7 + 16980481565524365258 * v8 + 6412696708929498357 * v9 + 13917768671775544479 * v10 + 5505378218427096880 * v11,
        d11 == 10318314766641004576 * v0 + 17320192463105632563 * v1 + 11540812969169097044 * v2 + 7270556942018024148 * v3 + 4755326086930560682 * v4 + 2193604418377108959 * v5 + 11681945506511803967 * v6 + 8000243866012209465 * v7 + 6746478642521594042 * v8 + 12096331252283646217 * v9 + 13208137848575217268 * v10 + 5548519654341606996 * v11,
        w0 == d0 - (P as int) * q0,
        w1 == d1 - (P as int) * q1,
        w2 == d2 - (P as int) * q2,
        w3 == d3 - (P as int) * q3,
        w4 == d4 - (P as int) * q4,
        w5 == d5 - (P as int) * q5,
        w6 == d6 - (P as int) * q6,
        w7 == d7 - (P as int) * q7,
        w8 == d8 - (P as int) * q8,
        w9 == d9 - (P as int) * q9,
        w10 == d10 - (P as int) * q10,
        w11 == d11 - (P as int) * q11,
    ensures
        (1134458872778032479 * w0 + 4102035717681749376 * w1 + 14030271225872148070 * w2 + 10312336662487337312 * w3 + 12938229830489392977 * w4 + 17758804398255988457 * w5 + 15482323580054918356 * w6 + 1010277923244261213 * w7 + 12904552397519353856 * w8 + 5073478003078459047 * w9 + 11514678194579805863 * w10 + 4419017610446058921 * w11) % (P as int) == v8,
{
    let x = 51059525549788328603 * v0 + 57473368311856616445 * v1 + 56390363131588053765 * v2 + 48231469008079329531 * v3 + 66384314011028487617 * v4 + 57461912229770412585 * v5 + 48702352395315548809 * v6 + 55173474076545535029 * v7 + 57482009826107240098 * v8 + 54251020342242480363 * v9 + 48073983910783061125 * v10 + 54099299035525961909 * v11;
    let y = 1134458872778032479 * q0 + 4102035717681749376 * q1 + 14030271225872148070 * q2 + 10312336662487337312 * q3 + 12938229830489392977 * q4 + 17758804398255988457 * q5 + 15482323580054918356 * q6 + 1010277923244261213 * q7 + 12904552397519353856 * q8 + 5073478003078459047 * q9 + 11514678194579805863 * q10 + 4419017610446058921 * q11;
    assert(1134458872778032479 * d0 + 4102035717681749376 * d1 + 14030271225872148070 * d2 + 10312336662487337312 * d3 + 12938229830489392977 * d4 + 17758804398255988457 * d5 + 15482323580054918356 * d6 + 1010277923244261213 * d7 + 12904552397519353856 * d8 + 5073478003078459047 * d9 + 11514678194579805863 * d10 + 4419017610446058921 * d11 == v8 + (P as int) * x);
    lemma_reduces_to(1134458872778032479 * w0 + 4102035717681749376 * w1 + 14030271225872148070 * w2 + 10312336662487337312 * w3 + 12938229830489392977 * w4 + 17758804398255988457 * w5 + 15482323580054918356 * w6 + 1010277923244261213 * w7 + 12904552397519353856 * w8 + 5073478003078459047 * w9 + 11514678194579805863 * w10 + 4419017610446058921 * w11, v8, x - y);
}

proof fn lemma_inv_mds_row9(v0: int, v1: int, v2: int, v3: int, v4: int, v5: int, v6: int, v7: int, v8: int, v9: int, v10: int, v11: int, d0: int, d1: int, d2: int, d3: int, d4: int, d5: int, d6: int, d7: int, d8: int, d9: int, d10: int, d11: int, w0: int, w1: int, w2: int, w3: int, w4: int, w5: int, w6: int, w7: int, w8: int, w9: int, w10: int, w11: int, q0: int, q1: int, q2: int, q3: int, q4: int, q5: int, q6: int, q7: int, q8: int, q9: int, q10: int, q11: int)
    requires
        0 <= v9 < P,
        d0 == 2108866337646019936 * v0 + 11223275256334781131 * v1 + 2318414738826783588 * v2 + 11240468238955543594 * v3 + 8007389560317667115 * v4 + 11080831380224887131 * v5 + 3922954383102346493 * v6 + 17194066286743901609 * v7 + 152620255842323114 * v8 + 7203302445933022224 * v9 + 17781531460838764471 * v10 + 2306881200 * v11,
        d1 == 3368836954250922620 * v0 + 5531382716338105518 * v1 + 7747104620279034727 * v2 + 14164487169476525880 * v3 + 4653455932372793639 * v4 + 5504123103633670518 * v5 + 3376629427948045767 * v6 + 1687083899297674997 * v7 + 8324288417826065247 * v8 + 17651364087632826504 * v9 + 15568475755679636039 * v10 + 4656488262337620150 * v11,
        d2 == 2560535215714666606 * v0 + 10793518538122219186 * v1 + 408467828146985886 * v2 + 13894393744319723897 * v3 + 17856013635663093677 * v4 + 14510101432365346218 * v5 + 12175743201430386993 * v6 + 12012700097100374591 * v7 + 976880602086740182 * v8 + 3187015135043748111 * v9 + 4630899319883688283 * v10 + 17674195666610532297 * v11,
        d3 == 10940635879119829731 * v0 + 9126204055164541072 * v1 + 13441880452578323624 * v2 + 13828699194559433302 * v3 + 6245685172712904082 * v4 + 3117562785727957263 * v5 + 17389107632996288753 * v6 + 3643151412418457029 * v7 + 10484080975961167028 * v8 + 4066673631745731889 * v9 + 8847974898748751041 * v10 + 9548808324754121113 * v11,
        d4 == 15656099696515372126 * v0 + 309741777966979967 * v1 + 16075523529922094036 * v2 + 5384192144218250710 * v3 + 15171244241641106028 * v4 + 6660319859038124593 * v5 + 6595450094003204814 * v6 + 15330207556174961057 * v7 + 2687301105226976975 * v8 + 15907414358067140389 * v9 + 2767130804164179683 * v10 + 8135839249549115549 * v11,
        d5 == 14687393836444508153 * v0 + 8122848807512458890 * v1 + 16998154830503301252 * v2 + 2904046703764323264 * v3 + 11170142989407566484 * v4 + 5448553946207765015 * v5 + 9766047029091333225 * v6 + 3852354853341479440 * v7 + 14577128274897891003 * v8 + 11994931371916133447 * v9 + 8299269445020599466 * v10 + 2859592328380146288 * v11,
        d6 == 4920761474064525703 * v0 + 13379538658122003618 * v1 + 3169184545474588182 * v2 + 15753261541491539618 * v3 + 622292315133191494 * v4 + 14052907820095169428 * v5 + 5159844729950547044 * v6 + 17439978194716087321 * v7 + 9945483003842285313 * v8 + 13647273880020281344 * v9 + 14750994260825376 * v10 + 12575187259316461486 * v11,
        d7 == 3371852905554824605 * v0 + 8886257005679683950 * v1 + 15677115160380392279 * v2 + 13242906482047961505 * v3 + 12149996307978507817 * v4 + 1427861135554592284 * v5 + 4033726302273030373 * v6 + 14761176804905342155 * v7 + 11465247508084706095 * v8 + 12112647677590318112 * v9 + 17343938135425110721 * v10 + 14654483060427620352 * v11,
        d8 == 5421794552262605237 * v0 + 14201164512563303484 * v1 + 5290621264363227639 * v2 + 1020180205893205576 * v3 + 14311345105258400438 * v4 + 7828111500457301560 * v5 + 9436759291445548340 * v6 + 5716067521736967068 * v7 + 15357555109169671716 * v8 + 4131452666376493252 * v9 + 16785275933585465720 * v10 + 11180136753375315897 * v11,
        d9 == 10451661389735482801 * v0 + 12128852772276583847 * v1 + 10630876800354432923 * v2 + 6884824371838330777 * v3 + 16413552665026570512 * v4 + 13637837753341196082 * v5 + 2558124068257217718 * v6 + 4327919242598628564 * v7 + 4236040195908057312 * v8 + 2081029262044280559 * v9 + 2047510589162918469 * v10 + 6835491236529222042 * v11,
        d10 == 5675273097893923172 * v0 + 8120839782755215647 * v1 + 9856415804450870143 * v2 + 1960632704307471239 * v3 + 15279057263127523057 * v4 + 17999325337309257121 * v5 + 72970456904683065 * v6 + 8899624805082057509 * v7 + 16980481565524365258 * v8 + 6412696708929498357 * v9 + 13917768671775544479 * v10 + 5505378218427096880 * v11,
        d11 == 10318314766641004576 * v0 + 17320192463105632563 * v1 + 11540812969169097044 * v2 + 7270556942018024148 * v3 + 4755326086930560682 * v4 + 2193604418377108959 * v5 + 11681945506511803967 * v6 + 8000243866012209465 * v7 + 6746478642521594042 * v8 + 12096331252283646217 * v9 + 13208137848575217268 * v10 + 5548519654341606996 * v11,
        w0 == d0 - (P as int) * q0,
        w1 == d1 - (P as int) * q1,
        w2 == d2 - (P as int) * q2,
        w3 == d3 - (P as int) * q3,
        w4 == d4 - (P as int) * q4,
        w5 == d5 - (P as int) * q5,
        w6 == d6 - (P as int) * q6,
        w7 == d7 - (P as int) * q7,
        w8 == d8 - (P as int) * q8,
        w9 == d9 - (P as int) * q9,
        w10 == d10 - (P as int) * q10,
        w11 == d11 - (P as int) * q11,
    ensures
        (2916054498252226520 * w0 + 9880379926449218161 * w1 + 15314650755395914465 * w2 + 8335514387550394159 * w3 + 8955267746483690029 * w4 + 16353914237438359160 * w5 + 4173425891602463552 * w6 + 14892581052359168234 * w7 + 17561678290843148035 * w8 + 7292975356887551984 * w9 + 18039512759118984712 * w10 + 5411253583520971237 * w11) % (P as int) == v9,
{
    let x = 51534902564869454694 * v0 + 66711722938655308258 * v1 + 69440419943814310408 * v2 + 54334770159181894071 * v3 + 85073084455697005676 * v4 + 61640503850704903697 * v5 + 50172120818864691646 * v6 + 60164155321201664667 * v7 + 70645515515392193248 * v8 + 60875096807566720975 * v9 + 75973478373823634686 * v10 + 63000651436410931038 * v11;
    let y = 2916054498252226520 * q0 + 9880379926449218161 * q1 + 15314650755395914465 * q2 + 8335514387550394159 * q3 + 8955267746483690029 * q4 + 16353914237438359160 * q5 + 4173425891602463552 * q6 + 14892581052359168234 * q7 + 17561678290843148035 * q8 + 7292975356887551984 * q9 + 18039512759118984712 * q10 + 5411253583520971237 * q11;
    assert(2916054498252226520 * d0 + 9880379926449218161 * d1 + 15314650755395914465 * d2 + 8335514387550394159 * d3 + 8955267746483690029 * d4 + 16353914237438359160 * d5 + 4173425891602463552 * d6 + 14892581052359168234 * d7 + 17561678290843148035 * d8 + 7292975356887551984 * d9 + 18039512759118984712 * d10 + 5411253583520971237 * d11 == v9 + (P as int) * x);
    lemma_reduces_to(2916054498252226520 * w0 + 9880379926449218161 * w1 + 15314650755395914465 * w2 + 8335514387550394159 * w3 + 8955267746483690029 * w4 + 16353914237438359160 * w5 + 4173425891602463552 * w6 + 14892581052359168234 * w7 + 17561678290843148035 * w8 + 7292975356887551984 * w9 + 18039512759118984712 * w10 + 5411253583520971237 * w11, v9, x - y);
}

proof fn lemma_inv_mds_row10(v0: int, v1: int, v2: int, v3: int, v4: int, v5: int, v6: int, v7: int, v8: int, v9: int, v10: int, v11: int, d0: int, d1: int, d2: int, d3: int, d4: int, d5: int, d6: int, d7: int, d8: int, d9: int, d10: int, d11: int, w0: int, w1: int, w2: int, w3: int, w4: int, w5: int, w6: int, w7: int, w8: int, w9: int, w10: int, w11: int, q0: int, q1: int, q2: int, q3: int, q4: int, q5: int, q6: int, q7: int, q8: int, q9: int, q10: int, q11: int)
    requires
        0 <= v10 < P,
        d0 == 2108866337646019936 * v0 + 11223275256334781131 * v1 + 2318414738826783588 * v2 + 11240468238955543594 * v3 + 8007389560317667115 * v4 + 11080831380224887131 * v5 + 3922954383102346493 * v6 + 17194066286743901609 * v7 + 152620255842323114 * v8 + 7203302445933022224 * v9 + 17781531460838764471 * v10 + 2306881200 * v11,
        d1 == 3368836954250922620 * v0 + 5531382716338105518 * v1 + 7747104620279034727 * v2 + 14164487169476525880 * v3 + 4653455932372793639 * v4 + 5504123103633670518 * v5 + 3376629427948045767 * v6 + 1687083899297674997 * v7 + 8324288417826065247 * v8 + 17651364087632826504 * v9 + 15568475755679636039 * v10 + 4656488262337620150 * v11,
        d2 == 2560535215714666606 * v0 + 10793518538122219186 * v1 + 408467828146985886 * v2 + 13894393744319723897 * v3 + 17856013635663093677 * v4 + 14510101432365346218 * v5 + 12175743201430386993 * v6 + 12012700097100374591 * v7 + 976880602086740182 * v8 + 3187015135043748111 * v9 + 4630899319883688283 * v10 + 17674195666610532297 * v11,
        d3 == 10940635879119829731 * v0 + 9126204055164541072 * v1 + 13441880452578323624 * v2 + 13828699194559433302 * v3 + 6245685172712904082 * v4 + 3117562785727957263 * v5 + 17389107632996288753 * v6 + 3643151412418457029 * v7 + 10484080975961167028 * v8 + 4066673631745731889 * v9 + 8847974898748751041 * v10 + 9548808324754121113 * v11,
        d4 == 15656099696515372126 * v0 + 309741777966979967 * v1 + 16075523529922094036 * v2 + 5384192144218250710 * v3 + 15171244241641106028 * v4 + 6660319859038124593 * v5 + 6595450094003204814 * v6 + 15330207556174961057 * v7 + 2687301105226976975 * v8 + 15907414358067140389 * v9 + 2767130804164179683 * v10 + 8135839249549115549 * v11,
        d5 == 14687393836444508153 * v0 + 8122848807512458890 * v1 + 16998154830503301252 * v2 + 2904046703764323264 * v3 + 11170142989407566484 * v4 + 5448553946207765015 * v5 + 9766047029091333225 * v6 + 3852354853341479440 * v7 + 14577128274897891003 * v8 + 11994931371916133447 * v9 + 8299269445020599466 * v10 + 2859592328380146288 * v11,
        d6 == 4920761474064525703 * v0 + 13379538658122003618 * v1 + 3169184545474588182 * v2 + 15753261541491539618 * v3 + 622292315133191494 * v4 + 14052907820095169428 * v5 + 5159844729950547044 * v6 + 17439978194716087321 * v7 + 9945483003842285313 * v8 + 13647273880020281344 * v9 + 14750994260825376 * v10 + 12575187259316461486 * v11,
        d7 == 3371852905554824605 * v0 + 8886257005679683950 * v1 + 15677115160380392279 * v2 + 13242906482047961505 * v3 + 12149996307978507817 * v4 + 1427861135554592284 * v5 + 4033726302273030373 * v6 + 14761176804905342155 * v7 + 11465247508084706095 * v8 + 12112647677590318112 * v9 + 17343938135425110721 * v10 + 14654483060427620352 * v11,
        d8 == 5421794552262605237 * v0 + 14201164512563303484 * v1 + 5290621264363227639 * v2 + 1020180205893205576 * v3 + 14311345105258400438 * v4 + 7828111500457301560 * v5 + 9436759291445548340 * v6 + 5716067521736967068 * v7 + 15357555109169671716 * v8 + 4131452666376493252 * v9 + 16785275933585465720 * v10 + 11180136753375315897 * v11,
        d9 == 10451661389735482801 * v0 + 12128852772276583847 * v1 + 10630876800354432923 * v2 + 6884824371838330777 * v3 + 16413552665026570512 * v4 + 13637837753341196082 * v5 + 2558124068257217718 * v6 + 4327919242598628564 * v7 + 4236040195908057312 * v8 + 2081029262044280559 * v9 + 2047510589162918469 * v10 + 6835491236529222042 * v11,
        d10 == 5675273097893923172 * v0 + 8120839782755215647 * v1 + 9856415804450870143 * v2 + 1960632704307471239 * v3 + 15279057263127523057 * v4 + 17999325337309257121 * v5 + 72970456904683065 * v6 + 8899624805082057509 * v7 + 16980481565524365258 * v8 + 6412696708929498357 * v9 + 13917768671775544479 * v10 + 5505378218427096880 * v11,
        d11 == 10318314766641004576 * v0 + 17320192463105632563 * v1 + 11540812969169097044 * v2 + 7270556942018024148 * v3 + 4755326086930560682 * v4 + 2193604418377108959 * v5 + 11681945506511803967 * v6 + 8000243866012209465 * v7 + 6746478642521594042 * v8 + 12096331252283646217 * v9 + 13208137848575217268 * v10 + 5548519654341606996 * v11,
        w0 == d0 - (P as int) * q0,
        w1 == d1 - (P as int) * q1,
        w2 == d2 - (P as int) * q2,
        w3 == d3 - (P as int) * q3,
        w4 == d4 - (P as int) * q4,
        w5 == d5 - (P as int) * q5,
        w6 == d6 - (P as int) * q6,
        w7 == d7 - (P as int) * q7,
        w8 == d8 - (P as int) * q8,
        w9 == d9 - (P as int) * q9,
        w10 == d10 - (P as int) * q10,
        w11 == d11 - (P as int) * q11,
    ensures
        (9848042270158364544 * w0 + 809689769037458603 * w1 + 5884047526712050760 * w2 + 12956871945669043745 * w3 + 14265127496637532237 * w4 + 6211568220597222123 * w5 + 678544061771515015 * w6 + 16295989318674734123 * w7 + 11782767968925152203 * w8 + 1359397660819991739 * w9 + 16148400912425385689 * w10 + 14440017265059055146 * w11) % (P as int) == v10,
{
    let x = 47266239652938995014 * v0 + 58036536358803080793 * v1 + 65095852633248771473 * v2 + 46754355621231282863 * v3 + 68260099229783391323 * v4 + 45217925185732993192 * v5 + 45907027429751743399 * v6 + 60501310126149104112 * v7 + 55871073356343015451 * v8 + 53911187601714060855 * v9 + 71520309759517627747 * v10 + 50019729162369888583 * v11;
    let y = 9848042270158364544 * q0 + 809689769037458603 * q1 + 5884047526712050760 * q2 + 12956871945669043745 * q3 + 14265127496637532237 * q4 + 6211568220597222123 * q5 + 678544061771515015 * q6 + 16295989318674734123 * q7 + 11782767968925152203 * q8 + 1359397660819991739 * q9 + 16148400912425385689 * q10 + 14440017265059055146 * q11;
    assert(9848042270158364544 * d0 + 809689769037458603 * d1 + 5884047526712050760 * d2 + 12956871945669043745 * d3 + 14265127496637532237 * d4 + 6211568220597222123 * d5 + 678544061771515015 * d6 + 16295989318674734123 * d7 + 11782767968925152203 * d8 + 1359397660819991739 * d9 + 16148400912425385689 * d10 + 14440017265059055146 * d11 == v10 + (P as int) * x);
    lemma_reduces_to(9848042270158364544 * w0 + 809689769037458603 * w1 + 5884047526712050760 * w2 + 12956871945669043745 * w3 + 14265127496637532237 * w4 + 6211568220597222123 * w5 + 678544061771515015 * w6 + 16295989318674734123 * w7 + 11782767968925152203 * w8 + 1359397660819991739 * w9 + 16148400912425385689 * w10 + 14440017265059055146 * w11, v10, x - y);
}

proof fn lemma_inv_mds_row11(v0: int, v1: int, v2: int, v3: int, v4: int, v5: int, v6: int, v7: int, v8: int, v9: int, v10: int, v11: int, d0: int, d1: int, d2: int, d3: int, d4: int, d5: int, d6: int, d7: int, d8: int, d9: int, d10: int, d11: int, w0: int, w1: int, w2: int, w3: int, w4: int, w5: int, w6: int, w7: int, w8: int, w9: int, w10: int, w11: int, q0: int, q1: int, q2: int, q3: int, q4: int, q5: int, q6: int, q7: int, q8: int, q9: int, q10: int, q11: int)
    requires
        0 <= v11 < P,
        d0 == 2108866337646019936 * v0 + 11223275256334781131 * v1 + 2318414738826783588 * v2 + 11240468238955543594 * v3 + 8007389560317667115 * v4 + 11080831380224887131 * v5 + 3922954383102346493 * v6 + 17194066286743901609 * v7 + 152620255842323114 * v8 + 7203302445933022224 * v9 + 17781531460838764471 * v10 + 2306881200 * v11,
        d1 == 3368836954250922620 * v0 + 5531382716338105518 * v1 + 7747104620279034727 * v2 + 14164487169476525880 * v3 + 4653455932372793639 * v4 + 5504123103633670518 * v5 + 3376629427948045767 * v6 + 1687083899297674997 * v7 + 8324288417826065247 * v8 + 17651364087632826504 * v9 + 15568475755679636039 * v10 + 4656488262337620150 * v11,
        d2 == 2560535215714666606 * v0 + 10793518538122219186 * v1 + 408467828146985886 * v2 + 13894393744319723897 * v3 + 17856013635663093677 * v4 + 14510101432365346218 * v5 + 12175743201430386993 * v6 + 12012700097100374591 * v7 + 976880602086740182 * v8 + 3187015135043748111 * v9 + 4630899319883688283 * v10 + 17674195666610532297 * v11,
        d3 == 10940635879119829731 * v0 + 9126204055164541072 * v1 + 13441880452578323624 * v2 + 13828699194559433302 * v3 + 6245685172712904082 * v4 + 3117562785727957263 * v5 + 17389107632996288753 * v6 + 3643151412418457029 * v7 + 10484080975961167028 * v8 + 4066673631745731889 * v9 + 8847974898748751041 * v10 + 9548808324754121113 * v11,
        d4 == 15656099696515372126 * v0 + 309741777966979967 * v1 + 16075523529922094036 * v2 + 5384192144218250710 * v3 + 15171244241641106028 * v4 + 6660319859038124593 * v5 + 6595450094003204814 * v6 + 15330207556174961057 * v7 + 2687301105226976975 * v8 + 15907414358067140389 * v9 + 2767130804164179683 * v10 + 8135839249549115549 * v11,
        d5 == 14687393836444508153 * v0 + 8122848807512458890 * v1 + 16998154830503301252 * v2 + 2904046703764323264 * v3 + 11170142989407566484 * v4 + 5448553946207765015 * v5 + 9766047029091333225 * v6 + 3852354853341479440 * v7 + 14577128274897891003 * v8 + 11994931371916133447 * v9 + 8299269445020599466 * v10 + 2859592328380146288 * v11,
        d6 == 4920761474064525703 * v0 + 13379538658122003618 * v1 + 3169184545474588182 * v2 + 15753261541491539618 * v3 + 622292315133191494 * v4 + 14052907820095169428 * v5 + 5159844729950547044 * v6 + 17439978194716087321 * v7 + 9945483003842285313 * v8 + 13647273880020281344 * v9 + 14750994260825376 * v10 + 12575187259316461486 * v11,
        d7 == 3371852905554824605 * v0 + 8886257005679683950 * v1 + 15677115160380392279 * v2 + 13242906482047961505 * v3 + 12149996307978507817 * v4 + 1427861135554592284 * v5 + 4033726302273030373 * v6 + 14761176804905342155 * v7 + 11465247508084706095 * v8 + 12112647677590318112 * v9 + 17343938135425110721 * v10 + 14654483060427620352 * v11,
        d8 == 5421794552262605237 * v0 + 14201164512563303484 * v1 + 5290621264363227639 * v2 + 1020180205893205576 * v3 + 14311345105258400438 * v4 + 7828111500457301560 * v5 + 9436759291445548340 * v6 + 5716067521736967068 * v7 + 15357555109169671716 * v8 + 4131452666376493252 * v9 + 16785275933585465720 * v10 + 11180136753375315897 * v11,
        d9 == 10451661389735482801 * v0 + 12128852772276583847 * v1 + 10630876800354432923 * v2 + 6884824371838330777 * v3 + 16413552665026570512 * v4 + 13637837753341196082 * v5 + 2558124068257217718 * v6 + 4327919242598628564 * v7 + 4236040195908057312 * v8 + 2081029262044280559 * v9 + 2047510589162918469 * v10 + 6835491236529222042 * v11,
        d10 == 5675273097893923172 * v0 + 8120839782755215647 * v1 + 9856415804450870143 * v2 + 1960632704307471239 * v3 + 15279057263127523057 * v4 + 17999325337309257121 * v5 + 72970456904683065 * v6 + 8899624805082057509 * v7 + 16980481565524365258 * v8 + 6412696708929498357 * v9 + 13917768671775544479 * v10 + 5505378218427096880 * v11,
        d11 == 10318314766641004576 * v0 + 17320192463105632563 * v1 + 11540812969169097044 * v2 + 7270556942018024148 * v3 + 4755326086930560682 * v4 + 2193604418377108959 * v5 + 11681945506511803967 * v6 + 8000243866012209465 * v7 + 6746478642521594042 * v8 + 12096331252283646217 * v9 + 13208137848575217268 * v10 + 5548519654341606996 * v11,
        w0 == d0 - (P as int) * q0,
        w1 == d1 - (P as int) * q1,
        w2 == d2 - (P as int) * q2,
        w3 == d3 - (P as int) * q3,
        w4 == d4 - (P as int) * q4,
        w5 == d5 - (P as int) * q5,
        w6 == d6 - (P as int) * q6,
        w7 == d7 - (P as int) * q7,
        w8 == d8 - (P as int) * q8,
        w9 == d9 - (P as int) * q9,
        w10 == d10 - (P as int) * q10,
        w11 == d11 - (P as int) * q11,
    ensures
        (1634272668217219807 * w0 + 16290589064070324125 * w1 + 5311838222680798126 * w2 + 15044064140936894715 * w3 + 15775025788428030421 * w4 + 12586374713559327349 * w5 + 8118943473454062014 * w6 + 13223746794660766349 * w7 + 13059674280609257192 * w8 + 16605443174349648289 * w9 + 13586971219878687822 * w10 + 16337009014471658360 * w11) % (P as int) == v11,
{
    let x = 67379772768298778240 * v0 + 76788946722255111687 * v1 + 86901354010791448511 * v2 + 66599140865321332016 * v3 + 85005867582775103043 * v4 + 62203904567142123576 * v5 + 57866697391660764223 * v6 + 65022345613061382085 * v7 + 74204508634686351320 * v8 + 77172368351105522494 * v9 + 80017390951261055134 * v10 + 64974859761564649221 * v11;
    let y = 1634272668217219807 * q0 + 16290589064070324125 * q1 + 5311838222680798126 * q2 + 15044064140936894715 * q3 + 15775025788428030421 * q4 + 12586374713559327349 * q5 + 8118943473454062014 * q6 + 13223746794660766349 * q7 + 13059674280609257192 * q8 + 16605443174349648289 * q9 + 13586971219878687822 * q10 + 16337009014471658360 * q11;
    assert(1634272668217219807 * d0 + 16290589064070324125 * d1 + 5311838222680798126 * d2 + 15044064140936894715 * d3 + 15775025788428030421 * d4 + 12586374713559327349 * d5 + 8118943473454062014 * d6 + 13223746794660766349 * d7 + 13059674280609257192 * d8 + 16605443174349648289 * d9 + 13586971219878687822 * d10 + 16337009014471658360 * d11 == v11 + (P as int) * x);
    lemma_reduces_to(1634272668217219807 * w0 + 16290589064070324125 * w1 + 5311838222680798126 * w2 + 15044064140936894715 * w3 + 15775025788428030421 * w4 + 12586374713559327349 * w5 + 8118943473454062014 * w6 + 13223746794660766349 * w7 + 13059674280609257192 * w8 + 16605443174349648289 * w9 + 13586971219878687822 * w10 + 16337009014471658360 * w11, v11, x - y);
}


/// Element `r` of `INV_MDS * (MDS * v)` is `v[r]`: the reduced forward products and their
/// quotients by the modulus, handed to the row's integer identity. One lemma per row.
#[verifier::rlimit(100)]
proof fn lemma_inv_mds_entry0(v: Seq<u64>)
    requires
        is_state(v),
    ensures
        mat_vec(INV_MDS, mat_vec(MDS, v))[0] == v[0],
{
    let w = mat_vec(MDS, v);
    let d = Seq::new(12, |i: int| dot(MDS[i]@, v, 12));
    let q = Seq::new(12, |i: int| d[i] / (P as int));
    lemma_mds_rows(v);
    lemma_dot12(INV_MDS[0]@, w);
    assert(is_felt(v[0]));
    lemma_fundamental_div_mod(d[0], P as int);
    lemma_fundamental_div_mod(d[1], P as int);
    lemma_fundamental_div_mod(d[2], P as int);
    lemma_fundamental_div_mod(d[3], P as int);
    lemma_fundamental_div_mod(d[4], P as int);
    lemma_fundamental_div_mod(d[5], P as int);
    lemma_fundamental_div_mod(d[6], P as int);
    lemma_fundamental_div_mod(d[7], P as int);
    lemma_fundamental_div_mod(d[8], P as int);
    lemma_fundamental_div_mod(d[9], P as int);
    lemma_fundamental_div_mod(d[10], P as int);
    lemma_fundamental_div_mod(d[11], P as int);
    lemma_inv_mds_row0(v[0] as int, v[1] as int, v[2] as int, v[3] as int, v[4] as int, v[5] as int, v[6] as int, v[7] as int, v[8] as int, v[9] as int, v[10] as int, v[11] as int, d[0], d[1], d[2], d[3], d[4], d[5], d[6], d[7], d[8], d[9], d[10], d[11], w[0] as int, w[1] as int, w[2] as int, w[3] as int, w[4] as int, w[5] as int, w[6] as int, w[7] as int, w[8] as int, w[9] as int, w[10] as int, w[11] as int, q[0], q[1], q[2], q[3], q[4], q[5], q[6], q[7], q[8], q[9], q[10], q[11]);
}

#[verifier::rlimit(100)]
proof fn lemma_inv_mds_entry1(v: Seq<u64>)
    requires
        is_state(v),
    ensures
        mat_vec(INV_MDS, mat_vec(MDS, v))[1] == v[1],
{
    let w = mat_vec(MDS, v);
    let d = Seq::new(12, |i: int| dot(MDS[i]@, v, 12));
    let q = Seq::new(12, |i: int| d[i] / (P as int));
    lemma_mds_rows(v);
    lemma_dot12(INV_MDS[1]@, w);
    assert(is_felt(v[1]));
    lemma_fundamental_div_mod(d[0], P as int);
    lemma_fundamental_div_mod(d[1], P as int);
    lemma_fundamental_div_mod(d[2], P as int);
    lemma_fundamental_div_mod(d[3], P as int);
    lemma_fundamental_div_mod(d[4], P as int);
    lemma_fundamental_div_mod(d[5], P as int);
    lemma_fundamental_div_mod(d[6], P as int);
    lemma_fundamental_div_mod(d[7], P as int);
    lemma_fundamental_div_mod(d[8], P as int);
    lemma_fundamental_div_mod(d[9], P as int);
    lemma_fundamental_div_mod(d[10], P as int);
    lemma_fundamental_div_mod(d[11], P as int);
    lemma_inv_mds_row1(v[0] as int, v[1] as int, v[2] as int, v[3] as int, v[4] as int, v[5] as int, v[6] as int, v[7] as int, v[8] as int, v[9] as int, v[10] as int, v[11] as int, d[0], d[1], d[2], d[3], d[4], d[5], d[6], d[7], d[8], d[9], d[10], d[11], w[0] as int, w[1] as int, w[2] as int, w[3] as int, w[4] as int, w[5] as int, w[6] as int, w[7] as int, w[8] as int, w[9] as int, w[10] as int, w[11] as int, q[0], q[1], q[2], q[3], q[4], q[5], q[6], q[7], q[8], q[9], q[10], q[11]);
}

#[verifier::rlimit(100)]
proof fn lemma_inv_mds_entry2(v: Seq<u64>)
    requires
        is_state(v),
    ensures
        mat_vec(INV_MDS, mat_vec(MDS, v))[2] == v[2],
{
    let w = mat_vec(MDS, v);
    let d = Seq::new(12, |i: int| dot(MDS[i]@, v, 12));
    let q = Seq::new(12, |i: int| d[i] / (P as int));
    lemma_mds_rows(v);
    lemma_dot12(INV_MDS[2]@, w);
    assert(is_felt(v[2]));
    lemma_fundamental_div_mod(d[0], P as int);
    lemma_fundamental_div_mod(d[1], P as int);
    lemma_fundamental_div_mod(d[2], P as int);
    lemma_fundamental_div_mod(d[3], P as int);
    lemma_fundamental_div_mod(d[4], P as int);
    lemma_fundamental_div_mod(d[5], P as int);
    lemma_fundamental_div_mod(d[6], P as int);
    lemma_fundamental_div_mod(d[7], P as int);
    lemma_fundamental_div_mod(d[8], P as int);
    lemma_fundamental_div_mod(d[9], P as int);
    lemma_fundamental_div_mod(d[10], P as int);
    lemma_fundamental_div_mod(d[11], P as int);
    lemma_inv_mds_row2(v[0] as int, v[1] as int, v[2] as int, v[3] as int, v[4] as int, v[5] as int, v[6] as int, v[7] as int, v[8] as int, v[9] as int, v[10] as int, v[11] as int, d[0], d[1], d[2], d[3], d[4], d[5], d[6], d[7], d[8], d[9], d[10], d[11], w[0] as int, w[1] as int, w[2] as int, w[3] as int, w[4] as int, w[5] as int, w[6] as int, w[7] as int, w[8] as int, w[9] as int, w[10] as int, w[11] as int, q[0], q[1], q[2], q[3], q[4], q[5], q[6], q[7], q[8], q[9], q[10], q[11]);
}

#[verifier::rlimit(100)]
proof fn lemma_inv_mds_entry3(v: Seq<u64>)
    requires
        is_state(v),
    ensures
        mat_vec(INV_MDS, mat_vec(MDS, v))[3] == v[3],
{
    let w = mat_vec(MDS, v);
    let d = Seq::new(12, |i: int| dot(MDS[i]@, v, 12));
    let q = Seq::new(12, |i: int| d[i] / (P as int));
    lemma_mds_rows(v);
    lemma_dot12(INV_MDS[3]@, w);
    assert(is_felt(v[3]));
    lemma_fundamental_div_mod(d[0], P as int);
    lemma_fundamental_div_mod(d[1], P as int);
    lemma_fundamental_div_mod(d[2], P as int);
    lemma_fundamental_div_mod(d[3], P as int);
    lemma_fundamental_div_mod(d[4], P as int);
    lemma_fundamental_div_mod(d[5], P as int);
    lemma_fundamental_div_mod(d[6], P as int);
    lemma_fundamental_div_mod(d[7], P as int);
    lemma_fundamental_div_mod(d[8], P as int);
    lemma_fundamental_div_mod(d[9], P as int);
    lemma_fundamental_div_mod(d[10], P as int);
    lemma_fundamental_div_mod(d[11], P as int);
    lemma_inv_mds_row3(v[0] as int, v[1] as int, v[2] as int, v[3] as int, v[4] as int, v[5] as int, v[6] as int, v[7] as int, v[8] as int, v[9] as int, v[10] as int, v[11] as int, d[0], d[1], d[2], d[3], d[4], d[5], d[6], d[7], d[8], d[9], d[10], d[11], w[0] as int, w[1] as int, w[2] as int, w[3] as int, w[4] as int, w[5] as int, w[6] as int, w[7] as int, w[8] as int, w[9] as int, w[10] as int, w[11] as int, q[0], q[1], q[2], q[3], q[4], q[5], q[6], q[7], q[8], q[9], q[10], q[11]);
}

#[verifier::rlimit(100)]
proof fn lemma_inv_mds_entry4(v: Seq<u64>)
    requires
        is_state(v),
    ensures
        mat_vec(INV_MDS, mat_vec(MDS, v))[4] == v[4],
{
    let w = mat_vec(MDS, v);
    let d = Seq::new(12, |i: int| dot(MDS[i]@, v, 12));
    let q = Seq::new(12, |i: int| d[i] / (P as int));
    lemma_mds_rows(v);
    lemma_dot12(INV_MDS[4]@, w);
    assert(is_felt(v[4]));
    lemma_fundamental_div_mod(d[0], P as int);
    lemma_fundamental_div_mod(d[1], P as int);
    lemma_fundamental_div_mod(d[2], P as int);
    lemma_fundamental_div_mod(d[3], P as int);
    lemma_fundamental_div_mod(d[4], P as int);
    lemma_fundamental_div_mod(d[5], P as int);
    lemma_fundamental_div_mod(d[6], P as int);
    lemma_fundamental_div_mod(d[7], P as int);
    lemma_fundamental_div_mod(d[8], P as int);
    lemma_fundamental_div_mod(d[9], P as int);
    lemma_fundamental_div_mod(d[10], P as int);
    lemma_fundamental_div_mod(d[11], P as int);
    lemma_inv_mds_row4(v[0] as int, v[1] as int, v[2] as int, v[3] as int, v[4] as int, v[5] as int, v[6] as int, v[7] as int, v[8] as int, v[9] as int, v[10] as int, v[11] as int, d[0], d[1], d[2], d[3], d[4], d[5], d[6], d[7], d[8], d[9], d[10], d[11], w[0] as int, w[1] as int, w[2] as int, w[3] as int, w[4] as int, w[5] as int, w[6] as int, w[7] as int, w[8] as int, w[9] as int, w[10] as int, w[11] as int, q[0], q[1], q[2], q[3], q[4], q[5], q[6], q[7], q[8], q[9], q[10], q[11]);
}

#[verifier::rlimit(100)]
proof fn lemma_inv_mds_entry5(v: Seq<u64>)
    requires
        is_state(v),
    ensures
        mat_vec(INV_MDS, mat_vec(MDS, v))[5] == v[5],
{
    let w = mat_vec(MDS, v);
    let d = Seq::new(12, |i: int| dot(MDS[i]@, v, 12));
    let q = Seq::new(12, |i: int| d[i] / (P as int));
    lemma_mds_rows(v);
    lemma_dot12(INV_MDS[5]@, w);
    assert(is_felt(v[5]));
    lemma_fundamental_div_mod(d[0], P as int);
    lemma_fundamental_div_mod(d[1], P as int);
    lemma_fundamental_div_mod(d[2], P as int);
    lemma_fundamental_div_mod(d[3], P as int);
    lemma_fundamental_div_mod(d[4], P as int);
    lemma_fundamental_div_mod(d[5], P as int);
    lemma_fundamental_div_mod(d[6], P as int);
    lemma_fundamental_div_mod(d[7], P as int);
    lemma_fundamental_div_mod(d[8], P as int);
    lemma_fundamental_div_mod(d[9], P as int);
    lemma_fundamental_div_mod(d[10], P as int);
    lemma_fundamental_div_mod(d[11], P as int);
    lemma_inv_mds_row5(v[0] as int, v[1] as int, v[2] as int, v[3] as int, v[4] as int, v[5] as int, v[6] as int, v[7] as int, v[8] as int, v[9] as int, v[10] as int, v[11] as int, d[0], d[1], d[2], d[3], d[4], d[5], d[6], d[7], d[8], d[9], d[10], d[11], w[0] as int, w[1] as int, w[2] as int, w[3] as int, w[4] as int, w[5] as int, w[6] as int, w[7] as int, w[8] as int, w[9] as int, w[10] as int, w[11] as int, q[0], q[1], q[2], q[3], q[4], q[5], q[6], q[7], q[8], q[9], q[10], q[11]);
}

#[verifier::rlimit(100)]
proof fn lemma_inv_mds_entry6(v: Seq<u64>)
    requires
        is_state(v),
    ensures
        mat_vec(INV_MDS, mat_vec(MDS, v))[6] == v[6],
{
    let w = mat_vec(MDS, v);
    let d = Seq::new(12, |i: int| dot(MDS[i]@, v, 12));
    let q = Seq::new(12, |i: int| d[i] / (P as int));
    lemma_mds_rows(v);
    lemma_dot12(INV_MDS[6]@, w);
    assert(is_felt(v[6]));
    lemma_fundamental_div_mod(d[0], P as int);
    lemma_fundamental_div_mod(d[1], P as int);
    lemma_fundamental_div_mod(d[2], P as int);
    lemma_fundamental_div_mod(d[3], P as int);
    lemma_fundamental_div_mod(d[4], P as int);
    lemma_fundamental_div_mod(d[5], P as int);
    lemma_fundamental_div_mod(d[6], P as int);
    lemma_fundamental_div_mod(d[7], P as int);
    lemma_fundamental_div_mod(d[8], P as int);
    lemma_fundamental_div_mod(d[9], P as int);
    lemma_fundamental_div_mod(d[10], P as int);
    lemma_fundamental_div_mod(d[11], P as int);
    lemma_inv_mds_row6(v[0] as int, v[1] as int, v[2] as int, v[3] as int, v[4] as int, v[5] as int, v[6] as int, v[7] as int, v[8] as int, v[9] as int, v[10] as int, v[11] as int, d[0], d[1], d[2], d[3], d[4], d[5], d[6], d[7], d[8], d[9], d[10], d[11], w[0] as int, w[1] as int, w[2] as int, w[3] as int, w[4] as int, w[5] as int, w[6] as int, w[7] as int, w[8] as int, w[9] as int, w[10] as int, w[11] as int, q[0], q[1], q[2], q[3], q[4], q[5], q[6], q[7], q[8], q[9], q[10], q[11]);
}

#[verifier::rlimit(100)]
proof fn lemma_inv_mds_entry7(v: Seq<u64>)
    requires
        is_state(v),
    ensures
        mat_vec(INV_MDS, mat_vec(MDS, v))[7] == v[7],
{
    let w = mat_vec(MDS, v);
    let d = Seq::new(12, |i: int| dot(MDS[i]@, v, 12));
    let q = Seq::new(12, |i: int| d[i] / (P as int));
    lemma_mds_rows(v);
    lemma_dot12(INV_MDS[7]@, w);
    assert(is_felt(v[7]));
    lemma_fundamental_div_mod(d[0], P as int);
    lemma_fundamental_div_mod(d[1], P as int);
    lemma_fundamental_div_mod(d[2], P as int);
    lemma_fundamental_div_mod(d[3], P as int);
    lemma_fundamental_div_mod(d[4], P as int);
    lemma_fundamental_div_mod(d[5], P as int);
    lemma_fundamental_div_mod(d[6], P as int);
    lemma_fundamental_div_mod(d[7], P as int);
    lemma_fundamental_div_mod(d[8], P as int);
    lemma_fundamental_div_mod(d[9], P as int);
    lemma_fundamental_div_mod(d[10], P as int);
    lemma_fundamental_div_mod(d[11], P as int);
    lemma_inv_mds_row7(v[0] as int, v[1] as int, v[2] as int, v[3] as int, v[4] as int, v[5] as int, v[6] as int, v[7] as int, v[8] as int, v[9] as int, v[10] as int, v[11] as int, d[0], d[1], d[2], d[3], d[4], d[5], d[6], d[7], d[8], d[9], d[10], d[11], w[0] as int, w[1] as int, w[2] as int, w[3] as int, w[4] as int, w[5] as int, w[6] as int, w[7] as int, w[8] as int, w[9] as int, w[10] as int, w[11] as int, q[0], q[1], q[2], q[3], q[4], q[5], q[6], q[7], q[8], q[9], q[10], q[11]);
}

#[verifier::rlimit(100)]
proof fn lemma_inv_mds_entry8(v: Seq<u64>)
    requires
        is_state(v),
    ensures
        mat_vec(INV_MDS, mat_vec(MDS, v))[8] == v[8],
{
    let w = mat_vec(MDS, v);
    let d = Seq::new(12, |i: int| dot(MDS[i]@, v, 12));
    let q = Seq::new(12, |i: int| d[i] / (P as int));
    lemma_mds_rows(v);
    lemma_dot12(INV_MDS[8]@, w);
    assert(is_felt(v[8]));
    lemma_fundamental_div_mod(d[0], P as int);
    lemma_fundamental_div_mod(d[1], P as int);
    lemma_fundamental_div_mod(d[2], P as int);
    lemma_fundamental_div_mod(d[3], P as int);
    lemma_fundamental_div_mod(d[4], P as int);
    lemma_fundamental_div_mod(d[5], P as int);
    lemma_fundamental_div_mod(d[6], P as int);
    lemma_fundamental_div_mod(d[7], P as int);
    lemma_fundamental_div_mod(d[8], P as int);
    lemma_fundamental_div_mod(d[9], P as int);
    lemma_fundamental_div_mod(d[10], P as int);
    lemma_fundamental_div_mod(d[11], P as int);
    lemma_inv_mds_row8(v[0] as int, v[1] as int, v[2] as int, v[3] as int, v[4] as int, v[5] as int, v[6] as int, v[7] as int, v[8] as int, v[9] as int, v[10] as int, v[11] as int, d[0], d[1], d[2], d[3], d[4], d[5], d[6], d[7], d[8], d[9], d[10], d[11], w[0] as int, w[1] as int, w[2] as int, w[3] as int, w[4] as int, w[5] as int, w[6] as int, w[7] as int, w[8] as int, w[9] as int, w[10] as int, w[11] as int, q[0], q[1], q[2], q[3], q[4], q[5], q[6], q[7], q[8], q[9], q[10], q[11]);
}

#[verifier::rlimit(100)]
proof fn lemma_inv_mds_entry9(v: Seq<u64>)
    requires
        is_state(v),
    ensures
        mat_vec(INV_MDS, mat_vec(MDS, v))[9] == v[9],
{
    let w = mat_vec(MDS, v);
    let d = Seq::new(12, |i: int| dot(MDS[i]@, v, 12));
    let q = Seq::new(12, |i: int| d[i] / (P as int));
    lemma_mds_rows(v);
    lemma_dot12(INV_MDS[9]@, w);
    assert(is_felt(v[9]));
    lemma_fundamental_div_mod(d[0], P as int);
    lemma_fundamental_div_mod(d[1], P as int);
    lemma_fundamental_div_mod(d[2], P as int);
    lemma_fundamental_div_mod(d[3], P as int);
    lemma_fundamental_div_mod(d[4], P as int);
    lemma_fundamental_div_mod(d[5], P as int);
    lemma_fundamental_div_mod(d[6], P as int);
    lemma_fundamental_div_mod(d[7], P as int);
    lemma_fundamental_div_mod(d[8], P as int);
    lemma_fundamental_div_mod(d[9], P as int);
    lemma_fundamental_div_mod(d[10], P as int);
    lemma_fundamental_div_mod(d[11], P as int);
    lemma_inv_mds_row9(v[0] as int, v[1] as int, v[2] as int, v[3] as int, v[4] as int, v[5] as int, v[6] as int, v[7] as int, v[8] as int, v[9] as int, v[10] as int, v[11] as int, d[0], d[1], d[2], d[3], d[4], d[5], d[6], d[7], d[8], d[9], d[10], d[11], w[0] as int, w[1] as int, w[2] as int, w[3] as int, w[4] as int, w[5] as int, w[6] as int, w[7] as int, w[8] as int, w[9] as int, w[10] as int, w[11] as int, q[0], q[1], q[2], q[3], q[4], q[5], q[6], q[7], q[8], q[9], q[10], q[11]);
}

#[verifier::rlimit(100)]
proof fn lemma_inv_mds_entry10(v: Seq<u64>)
    requires
        is_state(v),
    ensures
        mat_vec(INV_MDS, mat_vec(MDS, v))[10] == v[10],
{
    let w = mat_vec(MDS, v);
    let d = Seq::new(12, |i: int| dot(MDS[i]@, v, 12));
    let q = Seq::new(12, |i: int| d[i] / (P as int));
    lemma_mds_rows(v);
    lemma_dot12(INV_MDS[10]@, w);
    assert(is_felt(v[10]));
    lemma_fundamental_div_mod(d[0], P as int);
    lemma_fundamental_div_mod(d[1], P as int);
    lemma_fundamental_div_mod(d[2], P as int);
    lemma_fundamental_div_mod(d[3], P as int);
    lemma_fundamental_div_mod(d[4], P as int);
    lemma_fundamental_div_mod(d[5], P as int);
    lemma_fundamental_div_mod(d[6], P as int);
    lemma_fundamental_div_mod(d[7], P as int);
    lemma_fundamental_div_mod(d[8], P as int);
    lemma_fundamental_div_mod(d[9], P as int);
    lemma_fundamental_div_mod(d[10], P as int);
    lemma_fundamental_div_mod(d[11], P as int);
    lemma_inv_mds_row10(v[0] as int, v[1] as int, v[2] as int, v[3] as int, v[4] as int, v[5] as int, v[6] as int, v[7] as int, v[8] as int, v[9] as int, v[10] as int, v[11] as int, d[0], d[1], d[2], d[3], d[4], d[5], d[6], d[7], d[8], d[9], d[10], d[11], w[0] as int, w[1] as int, w[2] as int, w[3] as int, w[4] as int, w[5] as int, w[6] as int, w[7] as int, w[8] as int, w[9] as int, w[10] as int, w[11] as int, q[0], q[1], q[2], q[3], q[4], q[5], q[6], q[7], q[8], q[9], q[10], q[11]);
}

#[verifier::rlimit(100)]
proof fn lemma_inv_mds_entry11(v: Seq<u64>)
    requires
        is_state(v),
    ensures
        mat_vec(INV_MDS, mat_vec(MDS, v))[11] == v[11],
{
    let w = mat_vec(MDS, v);
    let d = Seq::new(12, |i: int| dot(MDS[i]@, v, 12));
    let q = Seq::new(12, |i: int| d[i] / (P as int));
    lemma_mds_rows(v);
    lemma_dot12(INV_MDS[11]@, w);
    assert(is_felt(v[11]));
    lemma_fundamental_div_mod(d[0], P as int);
    lemma_fundamental_div_mod(d[1], P as int);
    lemma_fundamental_div_mod(d[2], P as int);
    lemma_fundamental_div_mod(d[3], P as int);
    lemma_fundamental_div_mod(d[4], P as int);
    lemma_fundamental_div_mod(d[5], P as int);
    lemma_fundamental_div_mod(d[6], P as int);
    lemma_fundamental_div_mod(d[7], P as int);
    lemma_fundamental_div_mod(d[8], P as int);
    lemma_fundamental_div_mod(d[9], P as int);
    lemma_fundamental_div_mod(d[10], P as int);
    lemma_fundamental_div_mod(d[11], P as int);
    lemma_inv_mds_row11(v[0] as int, v[1] as int, v[2] as int, v[3] as int, v[4] as int, v[5] as int, v[6] as int, v[7] as int, v[8] as int, v[9] as int, v[10] as int, v[11] as int, d[0], d[1], d[2], d[3], d[4], d[5], d[6], d[7], d[8], d[9], d[10], d[11], w[0] as int, w[1] as int, w[2] as int, w[3] as int, w[4] as int, w[5] as int, w[6] as int, w[7] as int, w[8] as int, w[9] as int, w[10] as int, w[11] as int, q[0], q[1], q[2], q[3], q[4], q[5], q[6], q[7], q[8], q[9], q[10], q[11]);
}

/// The inverse diffusion matrix undoes the forward one: `INV_MDS * (MDS * v) = v` for every
/// state `v` of canonical field elements.
pub proof fn lemma_inv_mds_undoes_mds(v: Seq<u64>)
    requires
        is_state(v),
    ensures
        mat_vec(INV_MDS, mat_vec(MDS, v)) == v,
{
    lemma_inv_mds_entry0(v);
    lemma_inv_mds_entry1(v);
    lemma_inv_mds_entry2(v);
    lemma_inv_mds_entry3(v);
    lemma_inv_mds_entry4(v);
    lemma_inv_mds_entry5(v);
    lemma_inv_mds_entry6(v);
    lemma_inv_mds_entry7(v);
    lemma_inv_mds_entry8(v);
    lemma_inv_mds_entry9(v);
    lemma_inv_mds_entry10(v);
    lemma_inv_mds_entry11(v);
    assert(mat_vec(INV_MDS, mat_vec(MDS, v)) =~= v);
}

} // verus!
