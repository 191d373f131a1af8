use vstd::prelude::*;

verus! {

/// A rectangle of whole degrees, bounds inclusive; negative latitudes lie
/// south, negative longitudes west.
pub struct Region {
    pub north: i32,
    pub south: i32,
    pub east: i32,
    pub west: i32,
}

impl Region {
    pub fn new(north: i32, south: i32, east: i32, west: i32) -> (r: Region)
        ensures
            r.north == north,
            r.south == south,
            r.east == east,
            r.west == west,
    {
        Region { north, south, east, west }
    }
}

pub open spec fn abs(v: int) -> nat {
    if v >= 0 {
        v as nat
    } else {
        (-v) as nat
    }
}

pub open spec fn digit_char(d: nat) -> char {
    if d == 0 {
        '0'
    } else if d == 1 {
        '1'
    } else if d == 2 {
        '2'
    } else if d == 3 {
        '3'
    } else if d == 4 {
        '4'
    } else if d == 5 {
        '5'
    } else if d == 6 {
        '6'
    } else if d == 7 {
        '7'
    } else if d == 8 {
        '8'
    } else {
        '9'
    }
}

/// Decimal digits of `n`, most significant first, without leading zeros.
pub open spec fn decimal(n: nat) -> Seq<char>
    decreases n,
{
    if n < 10 {
        seq![digit_char(n)]
    } else {
        decimal(n / 10) + seq![digit_char(n % 10)]
    }
}

/// Decimal digits of `n`, with zeros in front up to `width` characters.
pub open spec fn zero_padded(n: nat, width: nat) -> Seq<char> {
    if decimal(n).len() < width {
        Seq::new((width - decimal(n).len()) as nat, |i: int| '0') + decimal(n)
    } else {
        decimal(n)
    }
}

/// File name of the tile whose south-west corner is at (lat, lon), such as
/// `n45e005.zip` or `s03w071.zip`.
pub open spec fn tile_name(lat: int, lon: int) -> Seq<char> {
    (if lat >= 0 { seq!['n'] } else { seq!['s'] }) + zero_padded(abs(lat), 2) + (if lon >= 0 {
        seq!['e']
    } else {
        seq!['w']
    }) + zero_padded(abs(lon), 3) + seq!['.', 'z', 'i', 'p']
}

/// Number of whole-degree latitudes in the region.
pub open spec fn lat_count(b: Region) -> int {
    if b.north >= b.south {
        b.north - b.south + 1
    } else {
        0
    }
}

/// Number of whole-degree longitudes in the region.
pub open spec fn lon_count(b: Region) -> int {
    if b.east >= b.west {
        b.east - b.west + 1
    } else {
        0
    }
}

/// The tiles of a region, latitude by latitude from the south, each
/// latitude's tiles from the west.
pub open spec fn tile_list(b: Region) -> Seq<Seq<char>> {
    Seq::new(
        (lat_count(b) * lon_count(b)) as nat,
        |i: int| tile_name(b.south + i / lon_count(b), b.west + i % lon_count(b)),
    )
}

fn magnitude(v: i32) -> (r: u32)
    ensures
        r == abs(v as int),
{
    if v >= 0 {
        v as u32
    } else {
        (-(v as i64)) as u32
    }
}

fn digit_str(d: u32) -> (r: &'static str)
    requires
        d < 10,
    ensures
        r@ == seq![digit_char(d as nat)],
{
    proof {
        reveal_strlit("0");
        reveal_strlit("1");
        reveal_strlit("2");
        reveal_strlit("3");
        reveal_strlit("4");
        reveal_strlit("5");
        reveal_strlit("6");
        reveal_strlit("7");
        reveal_strlit("8");
        reveal_strlit("9");
    }
    if d == 0 {
        "0"
    } else if d == 1 {
        "1"
    } else if d == 2 {
        "2"
    } else if d == 3 {
        "3"
    } else if d == 4 {
        "4"
    } else if d == 5 {
        "5"
    } else if d == 6 {
        "6"
    } else if d == 7 {
        "7"
    } else if d == 8 {
        "8"
    } else {
        "9"
    }
}

fn decimal_len(n: u32) -> (r: usize)
    ensures
        r == decimal(n as nat).len(),
        r <= n as int + 1,
    decreases n,
{
    if n < 10 {
        1
    } else {
        1 + decimal_len(n / 10)
    }
}

fn push_decimal(s: &mut String, n: u32)
    ensures
        final(s)@ == old(s)@ + decimal(n as nat),
    decreases n,
{
    if n >= 10 {
        push_decimal(s, n / 10);
    }
    s.append(digit_str(n % 10));
    proof {
        if n >= 10 {
            assert(final(s)@ =~= old(s)@ + decimal(n as nat));
        }
    }
}

fn push_zero_padded(s: &mut String, n: u32, width: usize)
    ensures
        final(s)@ == old(s)@ + zero_padded(n as nat, width as nat),
{
    let len = decimal_len(n);
    let ghost start = s@;
    if len < width {
        let mut k: usize = len;
        while k < width
            invariant
                len <= k <= width,
                s@ == start + Seq::new((k - len) as nat, |i: int| '0'),
            decreases width - k,
        {
            s.append("0");
            proof {
                reveal_strlit("0");
                assert(s@ =~= start + Seq::new((k + 1 - len) as nat, |i: int| '0'));
            }
            k += 1;
        }
    }
    push_decimal(s, n);
    proof {
        assert(s@ =~= start + zero_padded(n as nat, width as nat));
    }
}

fn tile_name_exec(lat: i32, lon: i32) -> (r: String)
    ensures
        r@ == tile_name(lat as int, lon as int),
{
    proof {
        reveal_strlit("n");
        reveal_strlit("s");
        reveal_strlit("e");
        reveal_strlit("w");
        reveal_strlit(".zip");
    }
    let mut s = String::new();
    if lat >= 0 {
        s.append("n");
    } else {
        s.append("s");
    }
    push_zero_padded(&mut s, magnitude(lat), 2);
    if lon >= 0 {
        s.append("e");
    } else {
        s.append("w");
    }
    push_zero_padded(&mut s, magnitude(lon), 3);
    s.append(".zip");
    assert(s@ =~= tile_name(lat as int, lon as int));
    s
}

/// Names of the elevation tiles that cover `bounds`: one per whole-degree
/// latitude and longitude in it, latitude by latitude from the south, each
/// latitude's tiles from the west. An empty region gives no names.
pub fn generate_tile_list(bounds: &Region) -> (r: Vec<String>)
    ensures
        r@.len() == tile_list(*bounds).len(),
        forall|i: int| 0 <= i < r@.len() ==> #[trigger] r@[i]@ == tile_list(*bounds)[i],
{
    let mut tiles: Vec<String> = Vec::new();
    let ghost nlon = lon_count(*bounds);
    let south = bounds.south as i64;
    let north = bounds.north as i64;
    let west = bounds.west as i64;
    let east = bounds.east as i64;
    let mut lat: i64 = south;
    while lat <= north
        invariant
            south == bounds.south,
            north == bounds.north,
            west == bounds.west,
            east == bounds.east,
            nlon == lon_count(*bounds),
            south <= lat,
            north >= south ==> lat <= north + 1,
            north < south ==> lat == south,
            tiles@.len() == (lat - south) * nlon,
            forall|i: int|
                0 <= i < tiles@.len() ==> #[trigger] tiles@[i]@ == tile_name(
                    south + i / nlon,
                    west + i % nlon,
                ),
        decreases north + 1 - lat,
    {
        let mut lon: i64 = west;
        while lon <= east
            invariant
                south == bounds.south,
                north == bounds.north,
                west == bounds.west,
                east == bounds.east,
                nlon == lon_count(*bounds),
                south <= lat <= north,
                west <= lon,
                east >= west ==> lon <= east + 1,
                east < west ==> lon == west,
                tiles@.len() == (lat - south) * nlon + (lon - west),
                forall|i: int|
                    0 <= i < tiles@.len() ==> #[trigger] tiles@[i]@ == tile_name(
                        south + i / nlon,
                        west + i % nlon,
                    ),
            decreases east + 1 - lon,
        {
            let name = tile_name_exec(lat as i32, lon as i32);
            proof {
                let k = (lat - south) * nlon + (lon - west);
                vstd::arithmetic::div_mod::lemma_fundamental_div_mod_converse(
                    k,
                    nlon,
                    lat - south,
                    lon - west,
                );
            }
            tiles.push(name);
            lon += 1;
        }
        proof {
            if east < west {
                assert(nlon == 0);
            }
            assert((lat - south) * nlon + nlon == (lat + 1 - south) * nlon) by (nonlinear_arith);
        }
        lat += 1;
    }
    proof {
        if north < south {
            assert(tiles@.len() == 0);
        } else {
            assert(lat == north + 1);
        }
    }
    tiles
}

} // verus!
