use microtex_rs::{
    add_dpi_to_svg, adjust_svg_height_and_center, extract_y_coordinates, recenter_pieces, PieceKind,
    XmlPiece, PICO,
};

const COMPLEXE_SVG: &str = r#"<?xml version="1.0" encoding="UTF-8"?>
<svg xmlns="http://www.w3.org/2000/svg" xmlns:xlink="http://www.w3.org/1999/xlink" width="188" height="39" viewBox="0 0 188 39" data-dpi="720">
<path fill-rule="nonzero" fill="rgb(0%, 0%, 0%)" fill-opacity="1" d="M 10.480469 23.28125 L 6.621094 14.480469 L 2.71875 23.28125 Z M 13.5 25.121094 L 0.960938 25.121094 L 6.941406 11.640625 L 7.339844 11.640625 Z M 13.5 25.121094 "/>
<path fill-rule="nonzero" fill="rgb(0%, 0%, 0%)" fill-opacity="1" d="M 19.398438 16.378906 L 20.140625 16.378906 C 21.398438 16.378906 21.300781 14.839844 22.160156 13.558594 C 22.78125 12.621094 23.640625 11.761719 25.160156 11.761719 C 26.160156 11.761719 26.738281 12.238281 26.738281 12.941406 C 26.738281 13.5 26.320312 13.738281 25.921875 13.738281 C 25.359375 13.738281 25.21875 13.519531 25.21875 13.238281 C 25.21875 12.960938 25.398438 12.660156 25.398438 12.5 C 25.398438 12.398438 25.339844 12.339844 25.101562 12.339844 C 24.101562 12.339844 23.320312 13.421875 22.898438 14.980469 L 22.519531 16.378906 L 24.121094 16.378906 L 23.878906 17.140625 L 22.359375 17.140625 L 20.78125 23.261719 C 20.640625 23.800781 20.480469 24.558594 20.179688 25.300781 C 19.519531 26.960938 18.441406 28.859375 16.679688 28.859375 C 15.71875 28.859375 15.238281 28.378906 15.238281 27.78125 C 15.238281 27.300781 15.519531 26.800781 16.101562 26.800781 C 16.640625 26.800781 16.839844 27.160156 16.839844 27.460938 C 16.839844 27.839844 16.519531 27.859375 16.519531 28.101562 C 16.519531 28.21875 16.640625 28.28125 16.820312 28.28125 C 18.121094 28.28125 18.71875 25.121094 19.019531 23.980469 L 20.761719 17.140625 L 19.21875 17.140625 Z M 19.398438 16.378906 "/>
<path fill-rule="nonzero" fill="rgb(0%, 0%, 0%)" fill-opacity="1" d="M 43.835938 22.71875 L 32.054688 22.71875 L 32.054688 21.398438 L 43.835938 21.398438 Z M 43.835938 18.71875 L 32.054688 18.71875 L 32.054688 17.398438 L 43.835938 17.398438 Z M 43.835938 18.71875 "/>
<path fill-rule="nonzero" fill="rgb(0%, 0%, 0%)" fill-opacity="1" d="M 56.191406 8.898438 L 56.191406 2.039062 L 51.390625 8.898438 Z M 59.8125 10.179688 L 57.75 10.179688 L 57.75 13.519531 L 56.191406 13.519531 L 56.191406 10.179688 L 50.589844 10.179688 L 50.589844 8.898438 L 56.871094 0 L 57.75 0 L 57.75 8.898438 L 59.8125 8.898438 Z M 59.8125 10.179688 "/>
<path fill-rule="nonzero" fill="rgb(0%, 0%, 0%)" fill-opacity="1" d="M 65.769531 8.078125 L 64.589844 7.28125 C 63.410156 8.238281 62.992188 9.058594 62.992188 10.359375 C 62.992188 12.199219 64.011719 13.238281 65.53125 13.238281 C 66.832031 13.238281 67.730469 12.339844 67.730469 11.039062 C 67.730469 9.800781 67.132812 9 65.769531 8.078125 Z M 67.449219 2.859375 C 67.449219 1.480469 66.632812 0.558594 65.269531 0.558594 C 63.929688 0.558594 63.070312 1.300781 63.070312 2.539062 C 63.070312 3.78125 63.8125 4.699219 65.570312 5.738281 C 66.929688 4.941406 67.449219 4.101562 67.449219 2.859375 Z M 69.25 10.421875 C 69.25 12.480469 67.710938 13.800781 65.3125 13.800781 C 63.050781 13.800781 61.472656 12.421875 61.472656 10.539062 C 61.472656 9.160156 61.929688 8.378906 64.070312 6.878906 C 62.011719 5.179688 61.589844 4.421875 61.589844 3.121094 C 61.589844 1.199219 63.25 0 65.472656 0 C 67.449219 0 68.832031 1.300781 68.832031 2.859375 C 68.832031 4.359375 68.132812 5.039062 66.152344 6.101562 C 68.609375 7.738281 69.25 8.820312 69.25 10.421875 Z M 69.25 10.421875 "/>
<path fill-rule="nonzero" fill="rgb(0%, 0%, 0%)" fill-opacity="1" d="M 77.949219 7.019531 C 77.949219 2.859375 77.070312 0.519531 75.3125 0.519531 C 73.652344 0.519531 72.75 2.878906 72.75 6.941406 C 72.75 11 73.632812 13.28125 75.351562 13.28125 C 77.050781 13.28125 77.949219 10.980469 77.949219 7.019531 Z M 79.871094 6.921875 C 79.871094 10.359375 78.609375 13.800781 75.351562 13.800781 C 71.929688 13.800781 70.832031 10.078125 70.832031 6.800781 C 70.832031 3.261719 72.210938 0 75.429688 0 C 78.050781 0 79.871094 2.820312 79.871094 6.921875 Z M 79.871094 6.921875 "/>
<path fill-rule="nonzero" fill="rgb(0%, 0%, 0%)" fill-opacity="1" d="M 87.949219 7.019531 C 87.949219 2.859375 87.070312 0.519531 85.3125 0.519531 C 83.652344 0.519531 82.75 2.878906 82.75 6.941406 C 82.75 11 83.632812 13.28125 85.351562 13.28125 C 87.050781 13.28125 87.949219 10.980469 87.949219 7.019531 Z M 89.871094 6.921875 C 89.871094 10.359375 88.609375 13.800781 85.351562 13.800781 C 81.929688 13.800781 80.832031 10.078125 80.832031 6.800781 C 80.832031 3.261719 82.210938 0 85.429688 0 C 88.050781 0 89.871094 2.820312 89.871094 6.921875 Z M 89.871094 6.921875 "/>
<path fill-rule="nonzero" fill="rgb(0%, 0%, 0%)" fill-opacity="1" d="M 97.949219 7.019531 C 97.949219 2.859375 97.070312 0.519531 95.3125 0.519531 C 93.652344 0.519531 92.75 2.878906 92.75 6.941406 C 92.75 11 93.632812 13.28125 95.351562 13.28125 C 97.050781 13.28125 97.949219 10.980469 97.949219 7.019531 Z M 99.871094 6.921875 C 99.871094 10.359375 98.609375 13.800781 95.351562 13.800781 C 91.929688 13.800781 90.832031 10.078125 90.832031 6.800781 C 90.832031 3.261719 92.210938 0 95.429688 0 C 98.050781 0 99.871094 2.820312 99.871094 6.921875 Z M 99.871094 6.921875 "/>
<path fill="none" stroke-width="66" stroke-linecap="butt" stroke-linejoin="bevel" stroke="rgb(0%, 0%, 0%)" stroke-opacity="1" stroke-miterlimit="0" d="M 2517.578181 1006.05471 L 5017.578237 1006.05471 " transform="matrix(0.02, 0, 0, 0.02, 0, 0)"/>
<path fill-rule="nonzero" fill="rgb(0%, 0%, 0%)" fill-opacity="1" d="M 61.191406 34.5 L 61.191406 27.640625 L 56.390625 34.5 Z M 64.8125 35.78125 L 62.75 35.78125 L 62.75 39.121094 L 61.191406 39.121094 L 61.191406 35.78125 L 55.589844 35.78125 L 55.589844 34.5 L 61.871094 25.601562 L 62.75 25.601562 L 62.75 34.5 L 64.8125 34.5 Z M 64.8125 35.78125 "/>
<path fill-rule="nonzero" fill="rgb(0%, 0%, 0%)" fill-opacity="1" d="M 72.949219 32.621094 C 72.949219 28.460938 72.070312 26.121094 70.3125 26.121094 C 68.652344 26.121094 67.75 28.480469 67.75 32.539062 C 67.75 36.601562 68.632812 38.878906 70.351562 38.878906 C 72.050781 38.878906 72.949219 36.578125 72.949219 32.621094 Z M 74.871094 32.519531 C 74.871094 35.960938 73.609375 39.398438 70.351562 39.398438 C 66.929688 39.398438 65.832031 35.679688 65.832031 32.398438 C 65.832031 28.859375 67.210938 25.601562 70.429688 25.601562 C 73.050781 25.601562 74.871094 28.421875 74.871094 32.519531 Z M 74.871094 32.519531 "/>
<path fill-rule="nonzero" fill="rgb(0%, 0%, 0%)" fill-opacity="1" d="M 82.589844 32.019531 L 82.589844 31.238281 C 82.589844 27.878906 81.691406 26.160156 79.949219 26.160156 C 79.351562 26.160156 78.832031 26.398438 78.492188 26.839844 C 78.089844 27.378906 77.792969 28.558594 77.792969 29.640625 C 77.792969 32.019531 78.75 33.519531 80.25 33.519531 C 81.132812 33.519531 82.589844 33.078125 82.589844 32.019531 Z M 76.53125 39.558594 L 76.472656 39.160156 C 79.511719 38.621094 81.75 36.519531 82.550781 33.238281 C 81.691406 34.078125 80.730469 34.378906 79.550781 34.378906 C 77.390625 34.378906 75.949219 32.761719 75.949219 30.320312 C 75.949219 27.621094 77.730469 25.601562 80.109375 25.601562 C 81.390625 25.601562 82.472656 26.160156 83.25 27.121094 C 84.050781 28.121094 84.53125 29.558594 84.53125 31.238281 C 84.53125 33.539062 83.730469 35.71875 82.132812 37.179688 C 80.429688 38.71875 79.132812 39.199219 76.53125 39.558594 Z M 76.53125 39.558594 "/>
<path fill-rule="nonzero" fill="rgb(0%, 0%, 0%)" fill-opacity="1" d="M 92.910156 35.359375 C 92.910156 32.800781 92.070312 31.480469 90.210938 31.480469 C 89.070312 31.480469 87.890625 31.960938 87.890625 33.800781 C 87.890625 36.839844 88.851562 38.839844 90.730469 38.839844 C 92.171875 38.839844 92.910156 37.398438 92.910156 35.359375 Z M 94.269531 25.441406 L 94.3125 25.761719 C 91.171875 26.28125 88.929688 28.441406 88.390625 31.460938 C 89.371094 30.699219 90.050781 30.558594 90.929688 30.558594 C 93.269531 30.558594 94.710938 32.160156 94.710938 34.738281 C 94.710938 36.019531 94.351562 37.140625 93.691406 37.941406 C 92.949219 38.859375 91.832031 39.398438 90.511719 39.398438 C 88.929688 39.398438 87.671875 38.660156 86.972656 37.378906 C 86.410156 36.359375 86.03125 34.941406 86.03125 33.539062 C 86.03125 31.378906 86.792969 29.480469 88.210938 28.019531 C 89.929688 26.21875 91.511719 25.738281 94.269531 25.441406 Z M 94.269531 25.441406 "/>
<path fill-rule="nonzero" fill="rgb(0%, 0%, 0%)" fill-opacity="1" d="M 117.988281 20.339844 L 118.648438 20.339844 C 118.527344 22.039062 117.445312 24.421875 115.488281 24.421875 C 113.566406 24.421875 111.425781 21.859375 109.988281 21.859375 C 108.585938 21.859375 107.847656 23.199219 107.527344 24.621094 L 106.867188 24.621094 C 106.964844 22.621094 108.167969 20.539062 110.125 20.539062 C 112.046875 20.539062 114.1875 23.101562 115.648438 23.101562 C 117.027344 23.101562 117.6875 21.761719 117.988281 20.339844 Z M 117.988281 15.621094 L 118.648438 15.621094 C 118.527344 17.320312 117.445312 19.699219 115.488281 19.699219 C 113.566406 19.699219 111.425781 17.140625 109.988281 17.140625 C 108.585938 17.140625 107.847656 18.480469 107.527344 19.898438 L 106.867188 19.898438 C 106.964844 17.898438 108.167969 15.820312 110.125 15.820312 C 112.046875 15.820312 114.1875 18.378906 115.648438 18.378906 C 117.027344 18.378906 117.6875 17.039062 117.988281 15.621094 Z M 117.988281 15.621094 "/>
<path fill-rule="nonzero" fill="rgb(0%, 0%, 0%)" fill-opacity="1" d="M 133.042969 25.121094 L 127.523438 25.121094 L 127.523438 24.820312 C 129.003906 24.738281 129.421875 24.320312 129.421875 23.21875 L 129.421875 14.238281 C 129.421875 13.558594 129.242188 13.261719 128.820312 13.261719 C 128.621094 13.261719 128.28125 13.359375 127.921875 13.5 L 127.382812 13.699219 L 127.382812 13.421875 L 130.960938 11.601562 L 131.140625 11.660156 L 131.140625 23.601562 C 131.140625 24.460938 131.542969 24.820312 133.042969 24.820312 Z M 133.042969 25.121094 "/>
<path fill-rule="nonzero" fill="rgb(0%, 0%, 0%)" fill-opacity="1" d="M 143.042969 25.121094 L 137.523438 25.121094 L 137.523438 24.820312 C 139.003906 24.738281 139.421875 24.320312 139.421875 23.21875 L 139.421875 14.238281 C 139.421875 13.558594 139.242188 13.261719 138.820312 13.261719 C 138.621094 13.261719 138.28125 13.359375 137.921875 13.5 L 137.382812 13.699219 L 137.382812 13.421875 L 140.960938 11.601562 L 141.140625 11.660156 L 141.140625 23.601562 C 141.140625 24.460938 141.542969 24.820312 143.042969 24.820312 Z M 143.042969 25.121094 "/>
<path fill-rule="nonzero" fill="rgb(0%, 0%, 0%)" fill-opacity="1" d="M 148.78125 24.261719 C 148.78125 24.839844 148.261719 25.339844 147.664062 25.339844 C 147.042969 25.339844 146.5625 24.859375 146.5625 24.238281 C 146.5625 23.621094 147.0625 23.121094 147.683594 23.121094 C 148.261719 23.121094 148.78125 23.660156 148.78125 24.261719 Z M 148.78125 24.261719 "/>
<path fill-rule="nonzero" fill="rgb(0%, 0%, 0%)" fill-opacity="1" d="M 159.140625 12.199219 L 154.902344 25.28125 L 153.601562 25.28125 L 157.5625 13.359375 L 153.261719 13.359375 C 152.101562 13.359375 151.761719 13.640625 150.921875 15 L 150.5625 14.820312 L 151.761719 11.878906 L 159.140625 11.878906 Z M 159.140625 12.199219 "/>
<path fill-rule="nonzero" fill="rgb(0%, 0%, 0%)" fill-opacity="1" d="M 179.222656 25.121094 L 173.640625 25.121094 L 173.640625 24.738281 C 175.203125 24.640625 175.402344 24.320312 175.402344 22.640625 L 175.402344 18.820312 L 169.34375 18.820312 L 169.34375 22.859375 C 169.34375 24.320312 169.601562 24.660156 171.082031 24.738281 L 171.101562 25.121094 L 165.523438 25.121094 L 165.523438 24.738281 C 167.082031 24.640625 167.300781 24.398438 167.300781 22.679688 L 167.300781 14.160156 C 167.300781 12.601562 167.0625 12.378906 165.523438 12.261719 L 165.523438 11.878906 L 171.121094 11.878906 L 171.121094 12.261719 C 169.664062 12.378906 169.34375 12.601562 169.34375 14.160156 L 169.34375 17.941406 L 175.402344 17.941406 L 175.402344 14.160156 C 175.402344 12.578125 175.140625 12.378906 173.621094 12.261719 L 173.621094 11.878906 L 179.222656 11.878906 L 179.222656 12.261719 C 177.742188 12.378906 177.441406 12.621094 177.441406 14.160156 L 177.441406 22.898438 C 177.441406 24.320312 177.722656 24.621094 179.222656 24.738281 Z M 179.222656 25.121094 "/>
<path fill-rule="nonzero" fill="rgb(0%, 0%, 0%)" fill-opacity="1" d="M 187.960938 22.398438 L 187.664062 25.121094 L 180.140625 25.121094 L 180.140625 24.820312 L 185.460938 16.71875 L 182.761719 16.71875 C 181.503906 16.71875 181.203125 17.019531 181.023438 18.480469 L 180.664062 18.480469 L 180.742188 16.121094 L 187.664062 16.121094 L 187.664062 16.421875 L 182.28125 24.519531 L 184.941406 24.519531 C 186.101562 24.519531 186.78125 24.320312 187.0625 23.980469 C 187.34375 23.640625 187.402344 23.320312 187.601562 22.320312 Z M 187.960938 22.398438 "/>
</svg>
"#;

fn coord(units: f64) -> i128 {
    (units * 1_000_000.0).round() as i128 * 1_000_000
}

fn max_of(ys: &[i128]) -> i128 {
    ys.iter().copied().max().expect("some coordinates")
}

fn extract_height(s: &str) -> Option<f32> {
    if let Some(idx) = s.find(r#"height=""#) {
        let rest = &s[idx + 8..];
        if let Some(end) = rest.find('"') {
            return rest[..end].parse::<f32>().ok();
        }
    }
    None
}

fn extract_translate_y(s: &str) -> Option<f32> {
    if let Some(idx) = s.find(r#"transform="translate("#) {
        let rest = &s[idx + r#"transform="translate("#.len()..];
        if let Some(end) = rest.find(')') {
            let inside = &rest[..end];
            let parts: Vec<&str> = inside
                .split(|c: char| c == ',' || c.is_whitespace())
                .filter(|p| !p.is_empty())
                .collect();
            if parts.len() >= 2 {
                return parts[1].trim().parse::<f32>().ok();
            }
        }
    }
    None
}

#[test]
fn test_add_dpi_to_svg_simple() {
    let svg = r#"<svg width="100" height="50" xmlns="http://www.w3.org/2000/svg"></svg>"#;
    let result = add_dpi_to_svg(svg, 720);
    assert!(result.contains(r#"data-dpi="720""#));
    assert!(result.contains(r#"width="100""#));
    assert!(result.contains(r#"height="50""#));
}

#[test]
fn test_add_dpi_to_svg_with_namespace() {
    let svg = r#"<svg xmlns="http://www.w3.org/2000/svg" version="1.1" width="120" height="60">"#;
    let result = add_dpi_to_svg(svg, 300);
    assert!(result.contains(r#"data-dpi="300""#));
    assert!(result.starts_with("<svg xmlns="));
}

#[test]
fn test_add_dpi_to_svg_different_dpi_values() {
    let svg = r#"<svg viewBox="0 0 100 100">"#;
    let result_300 = add_dpi_to_svg(svg, 300);
    let result_720 = add_dpi_to_svg(svg, 720);
    assert!(result_300.contains(r#"data-dpi="300""#));
    assert!(result_720.contains(r#"data-dpi="720""#));
}

#[test]
fn test_add_dpi_to_svg_no_svg_tag() {
    let svg = r#"<div>Not an SVG</div>"#;
    let result = add_dpi_to_svg(svg, 720);
    assert_eq!(result, svg);
}

#[test]
fn test_add_dpi_to_svg_malformed() {
    let svg = r#"<svg no closing bracket here"#;
    let result = add_dpi_to_svg(svg, 720);
    assert_eq!(result, svg);
}

#[test]
fn test_add_dpi_to_svg_preserves_content() {
    let svg = r#"<svg><circle cx="50" cy="50" r="40"/></svg>"#;
    let result = add_dpi_to_svg(svg, 720);
    assert!(result.contains(r#"<circle cx="50" cy="50" r="40"/></svg>"#));
    assert!(result.contains(r#"data-dpi="720""#));
}

#[test]
fn add_dpi_exact_output() {
    assert_eq!(add_dpi_to_svg("<svg></svg>", 300), r#"<svg data-dpi="300"></svg>"#);
    assert_eq!(add_dpi_to_svg("x<svg a='1'>y", -5), r#"x<svg a='1' data-dpi="-5">y"#);
    assert_eq!(add_dpi_to_svg("", 720), "");
}

#[test]
fn test_extract_y_coordinates_simple() {
    let svg = r#"<svg><path d="M 10 20 L 30 40 Z"/></svg>"#;
    let y_coords = extract_y_coordinates(svg);
    assert!(y_coords.len() >= 2);
    assert!(y_coords.contains(&coord(20.0)));
    assert!(y_coords.contains(&coord(40.0)));
}

#[test]
fn test_extract_y_coordinates_with_decimals() {
    let svg = r#"<svg><path d="M 10.5 20.25 L 30 39.121094 Z"/></svg>"#;
    let y_coords = extract_y_coordinates(svg);
    assert!(y_coords.contains(&coord(20.25)));
    let max_y = max_of(&y_coords);
    assert!((max_y - coord(39.121094)).abs() < PICO / 1000);
}

#[test]
fn test_extract_y_coordinates_empty() {
    let svg = r#"<svg></svg>"#;
    let y_coords = extract_y_coordinates(svg);
    assert_eq!(y_coords.len(), 0);
}

#[test]
fn test_extract_y_coordinates_multiple_paths() {
    let svg = r#"<svg>
            <path d="M 10 20 L 30 40 Z"/>
            <path d="M 5 15 L 25 35 Z"/>
        </svg>"#;
    let y_coords = extract_y_coordinates(svg);
    assert!(y_coords.len() >= 4);
    assert!(y_coords.contains(&coord(20.0)));
    assert!(y_coords.contains(&coord(40.0)));
    assert!(y_coords.contains(&coord(15.0)));
    assert!(y_coords.contains(&coord(35.0)));
}

#[test]
fn extract_applies_matrix_y_row() {
    let svg = r#"<svg><path d="M 10 20" transform="matrix(1, 0.5, 0, 2, 0, 3)"/></svg>"#;
    assert_eq!(extract_y_coordinates(svg), vec![coord(48.0)]);
}

#[test]
fn extract_skips_malformed_numbers_and_odd_tail() {
    let svg = r#"<path d="M 1.5.5 2 3 4"/>"#;
    assert_eq!(extract_y_coordinates(svg), vec![coord(3.0)]);
    let svg = r#"<path d="M-1-2L3,.5Z"/>"#;
    assert_eq!(extract_y_coordinates(svg), vec![coord(0.5)]);
}

#[test]
fn extract_keeps_signs_and_short_matrix_is_ignored() {
    let svg = r#"<path d="M 1 -2.5 L -3 4" transform="matrix(1, 2)"/>"#;
    assert_eq!(extract_y_coordinates(svg), vec![coord(-2.5), coord(4.0)]);
}

#[test]
fn test_adjust_svg_height_basic() {
    let svg = r#"<svg width="100" height="50" viewBox="0 0 100 50"><path d="M 10 20 L 30 55.5 Z"/></svg>"#;
    let adjusted = adjust_svg_height_and_center(svg);
    assert!(adjusted.contains(r#"height="56""#), "Missing height=56");
    assert!(adjusted.contains(r#"viewBox="0 0 100 56""#), "Missing updated viewBox");
    assert!(adjusted.contains(r#"<g transform="translate(0, "#), "Missing <g> wrapper");
    assert!(adjusted.contains("</g></svg>"), "Missing </g></svg>");
}

#[test]
fn adjust_exact_output() {
    let svg = r#"<svg width="100" height="50" viewBox="0 0 100 50"><path d="M 10 20 L 30 55.5 Z"/></svg>"#;
    assert_eq!(
        adjust_svg_height_and_center(svg),
        r#"<svg width="100" viewBox="0 0 100 56" height="56"><g transform="translate(0, 0.25)"><path d="M 10 20 L 30 55.5 Z"/></g></svg>"#
    );
}

#[test]
fn test_adjust_svg_height_within_tolerance() {
    let svg2 = r#"<svg width="100" height="50" viewBox="0 0 100 50">
<path d="M 10 0 L 30 0.01 Z"/>
</svg>"#;
    let adjusted2 = adjust_svg_height_and_center(svg2);
    assert_eq!(adjusted2, svg2);
}

#[test]
fn adjust_without_paths_is_unchanged() {
    let svg = r#"<svg height="3"><rect y="90"/></svg>"#;
    assert_eq!(adjust_svg_height_and_center(svg), svg);
}

#[test]
fn test_adjust_svg_height_complex() {
    let svg = r#"<svg width="188" height="39" viewBox="0 0 188 39">
<path d="M 10.480469 23.28125 L 6.621094 14.480469 L 2.71875 23.28125 Z"/>
<path d="M 61.191406 34.5 L 61.191406 27.640625 L 56.390625 34.5 Z M 64.8125 35.78125 L 62.75 35.78125 L 62.75 39.121094 L 61.191406 39.121094"/>
</svg>"#;
    let adjusted = adjust_svg_height_and_center(svg);
    assert!(adjusted.contains(r#"height="40""#));
    assert!(adjusted.contains(r#"viewBox="0 0 188 40""#));
    assert!(adjusted.contains(r#"<g transform="translate(0, "#));
}

#[test]
fn adjust_max_y_39_121094_gives_height_40_and_small_shift() {
    let svg = r#"<svg width="188" height="39" viewBox="0 0 188 39"><path d="M 62.75 39.121094 L 1 2"/></svg>"#;
    let adjusted = adjust_svg_height_and_center(svg);
    assert!(adjusted.contains(r#"height="40""#));
    assert!(adjusted.contains(r#"<g transform="translate(0, 0.439453)">"#));
    let t = extract_translate_y(&adjusted).unwrap();
    assert!((0.0..0.5).contains(&t));
}

#[test]
fn adjust_twice_does_not_grow_height() {
    let once = adjust_svg_height_and_center(COMPLEXE_SVG);
    let twice = adjust_svg_height_and_center(&once);
    assert_eq!(extract_height(&once), extract_height(&twice));
}

#[test]
fn test_extract_complexe_svg() {
    let y_coords = extract_y_coordinates(COMPLEXE_SVG);
    assert!(y_coords.len() >= 20);
    let max_y = max_of(&y_coords);
    assert!(max_y <= 40 * PICO);
}

#[test]
fn test_transformation_complete() {
    let svg = COMPLEXE_SVG;
    let transformed_svg = adjust_svg_height_and_center(svg);
    let original_height = extract_height(svg).expect("original SVG should contain height");
    let transformed_height =
        extract_height(&transformed_svg).expect("transformed SVG should contain height");
    assert!((transformed_height - (original_height + 1.0)).abs() < f32::EPSILON);
    let translate_y = extract_translate_y(&transformed_svg).unwrap();
    assert!(translate_y < 0.5);
}

#[test]
fn recenter_pieces_writes_group_and_height() {
    let pieces = vec![
        XmlPiece { kind: PieceKind::Start, text: r#"svg height="1" viewBox="0 0 9 1" a="b""#.to_string() },
        XmlPiece { kind: PieceKind::Verbatim, text: "\n".to_string() },
        XmlPiece { kind: PieceKind::Empty, text: r#"path d="M 0 1.5""#.to_string() },
        XmlPiece { kind: PieceKind::End, text: "svg".to_string() },
        XmlPiece { kind: PieceKind::Verbatim, text: "tail".to_string() },
    ];
    let out = recenter_pieces(&pieces, 3 * PICO / 2);
    assert_eq!(
        out,
        "<svg viewBox=\"0 0 9 2\" a=\"b\" height=\"2\">\n<g transform=\"translate(0, 0.25)\"><path d=\"M 0 1.5\"/></g></svg>"
    );
}

#[test]
fn matrix_entries_read_as_floats() {
    let svg = r#"<path d="M 10 20" transform="matrix(1, 0, 0, 2e0, 0, +3)"/>"#;
    assert_eq!(extract_y_coordinates(svg), vec![coord(43.0)]);
    let svg = r#"<path d="M 10 20" transform="matrix(1, 5E-1, 0, 1, 0, -1.5e1)"/>"#;
    assert_eq!(extract_y_coordinates(svg), vec![coord(10.0)]);
}

#[test]
fn large_path_numbers_keep_the_pairing() {
    let svg = r#"<path d="M 1 1000000000000 2 3"/>"#;
    assert_eq!(extract_y_coordinates(svg), vec![1_000_000_000_000 * PICO, 3 * PICO]);
    let svg = r#"<path d="M 1 99999999999999999 2 3"/>"#;
    assert_eq!(extract_y_coordinates(svg), vec![9_000_000_000_000 * PICO, 3 * PICO]);
}
